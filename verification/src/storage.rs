//! The device store: the ordered list of devices that the service knows,
//! and the file path that mirrors it.

use crate::models::Device;
use crate::text::{is_blank, is_blank_text, same_text};
use vstd::prelude::*;

verus! {

/// Whether the device at index `i` has the id `id`.
pub open spec fn matches_at(devices: Seq<Device>, id: Seq<char>, i: int) -> bool {
    0 <= i < devices.len() && devices[i].id@ == id
}

/// Whether some device has the id `id`.
pub open spec fn contains_id(devices: Seq<Device>, id: Seq<char>) -> bool {
    exists|i: int| matches_at(devices, id, i)
}

/// Whether `i` is the index of the first device with the id `id`.
pub open spec fn is_first_match(devices: Seq<Device>, id: Seq<char>, i: int) -> bool {
    matches_at(devices, id, i) && forall|j: int| 0 <= j < i ==> !matches_at(devices, id, j)
}

/// The index of the first device with the id `id`, where there is one.
pub open spec fn first_match(devices: Seq<Device>, id: Seq<char>) -> int {
    choose|i: int| is_first_match(devices, id, i)
}

/// The first device with the id `id`.
pub open spec fn lookup(devices: Seq<Device>, id: Seq<char>) -> Option<Device> {
    if contains_id(devices, id) {
        Some(devices[first_match(devices, id)])
    } else {
        None
    }
}

/// The list without the first device with the id `id`.
pub open spec fn removed(devices: Seq<Device>, id: Seq<char>) -> Seq<Device> {
    if contains_id(devices, id) {
        devices.remove(first_match(devices, id))
    } else {
        devices
    }
}

/// What a stored record becomes when `replacement` is written over it: the
/// replacement, but for the id and the creation time, which stay.
pub open spec fn merged(stored: Device, replacement: Device) -> Device {
    Device {
        id: stored.id,
        name: replacement.name,
        mac_address: replacement.mac_address,
        ip_address: replacement.ip_address,
        port: replacement.port,
        description: replacement.description,
        created_at: stored.created_at,
    }
}

/// The list with `replacement` written over the first device with the id
/// `id`.
pub open spec fn updated(devices: Seq<Device>, id: Seq<char>, replacement: Device) -> Seq<
    Device,
> {
    if contains_id(devices, id) {
        let i = first_match(devices, id);
        devices.update(i, merged(devices[i], replacement))
    } else {
        devices
    }
}

/// No two devices share an id.
pub open spec fn ids_unique(devices: Seq<Device>) -> bool {
    forall|i: int, j: int|
        0 <= i < j < devices.len() ==> (#[trigger] devices[i]).id@ != (#[trigger] devices[j]).id@
}

/// Every device has a valid MAC address.
pub open spec fn all_valid(devices: Seq<Device>) -> bool {
    forall|i: int| 0 <= i < devices.len() ==> (#[trigger] devices[i]).wf()
}

/// The first device with a given id is the only index that matches and has
/// no match before it.
pub proof fn lemma_first_match(devices: Seq<Device>, id: Seq<char>, i: int)
    requires
        is_first_match(devices, id, i),
    ensures
        contains_id(devices, id),
        first_match(devices, id) == i,
{
    let k = first_match(devices, id);
    assert(is_first_match(devices, id, k));
    if k < i {
        assert(!matches_at(devices, id, k));
    }
    if i < k {
        assert(!matches_at(devices, id, i));
    }
}

/// Where some device has the id, a first one has.
pub proof fn lemma_contains_has_first(devices: Seq<Device>, id: Seq<char>)
    requires
        contains_id(devices, id),
    ensures
        is_first_match(devices, id, first_match(devices, id)),
{
    let w = choose|i: int| matches_at(devices, id, i);
    lemma_first_below(devices, id, w);
}

proof fn lemma_first_below(devices: Seq<Device>, id: Seq<char>, w: int)
    requires
        matches_at(devices, id, w),
    ensures
        exists|i: int| is_first_match(devices, id, i),
    decreases w,
{
    if exists|j: int| 0 <= j < w && matches_at(devices, id, j) {
        let j = choose|j: int| 0 <= j < w && matches_at(devices, id, j);
        lemma_first_below(devices, id, j);
    } else {
        assert(is_first_match(devices, id, w));
    }
}

/// A device that is added under an id that no stored device has is the one
/// that a lookup of its id then finds.
pub proof fn lemma_get_after_add(devices: Seq<Device>, device: Device)
    requires
        !contains_id(devices, device.id@),
    ensures
        lookup(devices.push(device), device.id@) == Some(device),
{
    let after = devices.push(device);
    let last = devices.len() as int;
    assert(matches_at(after, device.id@, last));
    assert forall|j: int| 0 <= j < last implies !matches_at(after, device.id@, j) by {
        assert(!matches_at(devices, device.id@, j));
    }
    lemma_first_match(after, device.id@, last);
}

/// An update keeps the id and the creation time of the stored record,
/// whatever the replacement carries, and takes every other field from the
/// replacement.
pub proof fn lemma_update_keeps_identity(devices: Seq<Device>, id: Seq<char>, replacement: Device)
    requires
        contains_id(devices, id),
    ensures
        lookup(updated(devices, id, replacement), id) == Some(
            merged(lookup(devices, id)->0, replacement),
        ),
        lookup(updated(devices, id, replacement), id)->0.id == lookup(devices, id)->0.id,
        lookup(updated(devices, id, replacement), id)->0.created_at == lookup(
            devices,
            id,
        )->0.created_at,
        updated(devices, id, replacement).len() == devices.len(),
{
    lemma_contains_has_first(devices, id);
    let i = first_match(devices, id);
    let after = updated(devices, id, replacement);
    assert(matches_at(after, id, i));
    assert forall|j: int| 0 <= j < i implies !matches_at(after, id, j) by {
        assert(!matches_at(devices, id, j));
    }
    lemma_first_match(after, id, i);
}

/// Removing an id that no device has finds nothing and leaves the list as
/// it is.
pub proof fn lemma_remove_missing(devices: Seq<Device>, id: Seq<char>)
    requires
        !contains_id(devices, id),
    ensures
        lookup(devices, id) is None,
        removed(devices, id) == devices,
{
}

/// Removing an id that a device has makes the list shorter by one; where
/// ids are unique, no device has the id afterwards.
pub proof fn lemma_remove_existing(devices: Seq<Device>, id: Seq<char>)
    requires
        contains_id(devices, id),
    ensures
        lookup(devices, id) is Some,
        removed(devices, id).len() == devices.len() - 1,
        ids_unique(devices) ==> lookup(removed(devices, id), id) is None,
{
    lemma_contains_has_first(devices, id);
    let i = first_match(devices, id);
    let after = removed(devices, id);
    if ids_unique(devices) {
        assert forall|j: int| !matches_at(after, id, j) by {
            if 0 <= j < after.len() {
                if j < i {
                    assert(after[j] == devices[j]);
                } else {
                    assert(after[j] == devices[j + 1]);
                    assert(devices[i].id@ != devices[j + 1].id@);
                }
            }
        }
    }
}

/// Removing a device leaves the others as they were, in their order.
pub proof fn lemma_remove_keeps_others(devices: Seq<Device>, id: Seq<char>, other: Seq<char>)
    requires
        other != id,
    ensures
        lookup(removed(devices, id), other) == lookup(devices, other),
{
    if contains_id(devices, id) {
        lemma_contains_has_first(devices, id);
        let i = first_match(devices, id);
        let after = removed(devices, id);
        if contains_id(devices, other) {
            lemma_contains_has_first(devices, other);
            let k = first_match(devices, other);
            let k2 = if k < i { k } else { k - 1 };
            assert(matches_at(after, other, k2));
            assert forall|j: int| 0 <= j < k2 implies !matches_at(after, other, j) by {
                if j < i {
                    assert(!matches_at(devices, other, j));
                } else {
                    assert(!matches_at(devices, other, j + 1));
                }
            }
            lemma_first_match(after, other, k2);
        } else {
            assert forall|j: int| !matches_at(after, other, j) by {
                if 0 <= j < after.len() {
                    if j < i {
                        assert(!matches_at(devices, other, j));
                    } else {
                        assert(!matches_at(devices, other, j + 1));
                    }
                }
            }
        }
    }
}

/// The devices of the service, in the order in which they were added.
///
/// The store holds the list in memory and knows the path of the file that
/// mirrors it; it never touches the file. Whoever changes the store writes
/// the whole list out afterwards, and a failure of that write does not
/// undo the change.
#[derive(Debug)]
pub struct DeviceStorage {
    path: String,
    pub devices: Vec<Device>,
}

impl View for DeviceStorage {
    type V = Seq<Device>;

    closed spec fn view(&self) -> Seq<Device> {
        self.devices@
    }
}

impl Clone for DeviceStorage {
    fn clone(&self) -> (r: Self)
        ensures
            r@ == self@,
            r.path_view() == self.path_view(),
    {
        DeviceStorage { path: self.path.clone(), devices: self.get_all() }
    }
}

impl DeviceStorage {
    /// The path of the file that mirrors the store.
    pub closed spec fn path_view(&self) -> Seq<char> {
        self.path@
    }

    /// The invariant of a store whose devices were all made by
    /// `Device::new`: ids are unique and MAC addresses valid.
    pub open spec fn wf(&self) -> bool {
        ids_unique(self@) && all_valid(self@)
    }

    /// An empty store that is mirrored at `path`.
    pub fn new(path: &str) -> (s: Self)
        ensures
            s@ == Seq::<Device>::empty(),
            s.path_view() == path@,
            s.wf(),
    {
        DeviceStorage { path: String::from_str(path), devices: Vec::new() }
    }

    /// Opens the store that is mirrored at `path`, given the text of that
    /// file, or nothing where there is no such file. A missing file and
    /// one that holds nothing but white space give an empty store. Any
    /// other text has to be decoded first: the answer is `None`, and the
    /// store is made from the decoded devices by `with_devices`.
    pub fn load(path: &str, content: Option<&str>) -> (r: Option<Self>)
        ensures
            r is Some <==> (content matches Some(text) ==> is_blank(text@)),
            r matches Some(s) ==> s@ == Seq::<Device>::empty() && s.path_view() == path@
                && s.wf(),
    {
        match content {
            None => Some(DeviceStorage::new(path)),
            Some(text) => if is_blank_text(text) {
                Some(DeviceStorage::new(path))
            } else {
                None
            },
        }
    }

    /// A store that holds `devices` and is mirrored at `path`.
    pub fn with_devices(path: &str, devices: Vec<Device>) -> (s: Self)
        ensures
            s@ == devices@,
            s.path_view() == path@,
    {
        DeviceStorage { path: String::from_str(path), devices }
    }

    /// The path of the file that mirrors the store.
    pub fn path(&self) -> (p: &str)
        ensures
            p@ == self.path_view(),
    {
        self.path.as_str()
    }

    /// The index of the first device with the id `id`.
    pub fn position(&self, id: &str) -> (r: Option<usize>)
        ensures
            r is Some <==> contains_id(self@, id@),
            r matches Some(i) ==> i as int == first_match(self@, id@) && i < self@.len(),
    {
        let mut i: usize = 0;
        while i < self.devices.len()
            invariant
                i <= self.devices.len(),
                forall|j: int| 0 <= j < i ==> !matches_at(self@, id@, j),
            decreases self.devices.len() - i,
        {
            if same_text(self.devices[i].id.as_str(), id) {
                proof {
                    assert(is_first_match(self@, id@, i as int));
                    lemma_first_match(self@, id@, i as int);
                }
                return Some(i);
            }
            i += 1;
        }
        assert(!contains_id(self@, id@));
        None
    }

    /// Appends a device.
    pub fn add(&mut self, device: Device)
        ensures
            final(self)@ == old(self)@.push(device),
            final(self).path_view() == old(self).path_view(),
            old(self).wf() && device.wf() && !contains_id(old(self)@, device.id@)
                ==> final(self).wf(),
    {
        self.devices.push(device);
        proof {
            if old(self).wf() && device.wf() && !contains_id(old(self)@, device.id@) {
                assert forall|i: int, j: int| 0 <= i < j < self@.len() implies (
                #[trigger] self@[i]).id@ != (#[trigger] self@[j]).id@ by {
                    if j == old(self)@.len() {
                        assert(!matches_at(old(self)@, device.id@, i));
                    }
                }
            }
        }
    }

    /// Appends devices, in their order.
    pub fn add_all(&mut self, devices: Vec<Device>)
        ensures
            final(self)@ == old(self)@ + devices@,
            final(self).path_view() == old(self).path_view(),
            all_valid(old(self)@) && all_valid(devices@) ==> all_valid(final(self)@),
            ids_unique(old(self)@ + devices@) ==> ids_unique(final(self)@),
    {
        let mut devices = devices;
        self.devices.append(&mut devices);
    }

    /// Takes out the first device with the id `id` and returns it; without
    /// one, the store stays as it is.
    pub fn remove(&mut self, id: &str) -> (r: Option<Device>)
        ensures
            r == lookup(old(self)@, id@),
            final(self)@ == removed(old(self)@, id@),
            final(self).path_view() == old(self).path_view(),
            old(self).wf() ==> final(self).wf(),
    {
        match self.position(id) {
            Some(i) => {
                let device = self.devices.remove(i);
                Some(device)
            },
            None => None,
        }
    }

    /// Writes `device` over the first device with the id `id`, whose id and
    /// creation time stay, and returns the record as it now stands; without
    /// such a device, the store stays as it is.
    pub fn update(&mut self, id: &str, device: Device) -> (r: Option<Device>)
        ensures
            r == lookup(final(self)@, id@),
            r is Some <==> contains_id(old(self)@, id@),
            final(self)@ == updated(old(self)@, id@, device),
            final(self).path_view() == old(self).path_view(),
            old(self).wf() && device.wf() ==> final(self).wf(),
    {
        match self.position(id) {
            Some(i) => {
                let record = Device {
                    id: self.devices[i].id.clone(),
                    name: device.name,
                    mac_address: device.mac_address,
                    ip_address: device.ip_address,
                    port: device.port,
                    description: device.description,
                    created_at: self.devices[i].created_at,
                };
                let result = record.clone();
                self.devices[i] = record;
                proof {
                    lemma_contains_has_first(old(self)@, id@);
                    assert(is_first_match(self@, id@, i as int)) by {
                        assert forall|j: int| 0 <= j < i implies !matches_at(self@, id@, j) by {
                            assert(!matches_at(old(self)@, id@, j));
                        }
                    }
                    lemma_first_match(self@, id@, i as int);
                }
                Some(result)
            },
            None => None,
        }
    }

    /// Whether the list has to be written out after a removal or an update
    /// that answered `found`: exactly when it found its device. After an
    /// addition the list is always written out.
    pub fn needs_write(found: &Option<Device>) -> (write: bool)
        ensures
            write == (found is Some),
    {
        found.is_some()
    }

    /// A copy of the first device with the id `id`.
    pub fn get(&self, id: &str) -> (r: Option<Device>)
        ensures
            r == lookup(self@, id@),
    {
        match self.position(id) {
            Some(i) => Some(self.devices[i].clone()),
            None => None,
        }
    }

    /// A copy of every device, in order.
    pub fn get_all(&self) -> (all: Vec<Device>)
        ensures
            all@ == self@,
    {
        let mut all: Vec<Device> = Vec::with_capacity(self.devices.len());
        let mut i: usize = 0;
        while i < self.devices.len()
            invariant
                i <= self.devices.len(),
                all@ == self@.take(i as int),
            decreases self.devices.len() - i,
        {
            all.push(self.devices[i].clone());
            assert(self@.take(i + 1) =~= self@.take(i as int).push(self@[i as int]));
            i += 1;
        }
        assert(self@.take(self@.len() as int) =~= self@);
        all
    }
}

} // verus!
