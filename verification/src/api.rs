//! What the endpoints of the service compute: the records that requests
//! turn into, and the bodies of the responses.

use crate::error::{ApiError, AppError, ArpError};
use crate::mac::valid_mac;
use crate::models::{copy_text, draw_identity, validate_mac_address, Device, Timestamp};
use vstd::prelude::*;

verus! {

/// Asks for the MAC address of an IPv4 address.
#[derive(Debug, PartialEq)]
pub struct ArpLookupRequest {
    pub ip: String,
}

/// The MAC address that was found.
#[derive(Debug, PartialEq)]
pub struct ArpLookupResponse {
    pub mac: String,
}

/// A device as it is exported: without its id and its creation time.
#[derive(Debug, PartialEq)]
pub struct ExportResponse {
    pub name: String,
    pub mac_address: String,
    pub port: u16,
    pub ip_address: Option<String>,
    pub description: Option<String>,
}

/// A device to import.
#[derive(Debug, PartialEq)]
pub struct ImportRequest {
    pub name: String,
    pub mac_address: String,
    pub port: Option<u16>,
    pub ip_address: Option<String>,
    pub description: Option<String>,
}

/// A device to create.
#[derive(Debug, PartialEq)]
pub struct CreateDeviceRequest {
    pub name: String,
    pub mac_address: String,
    pub ip_address: Option<String>,
    pub port: Option<u16>,
    pub description: Option<String>,
}

/// The fields of a device to replace.
#[derive(Debug, PartialEq)]
pub struct UpdateDeviceRequest {
    pub name: Option<String>,
    pub mac_address: Option<String>,
    pub ip_address: Option<String>,
    pub port: Option<u16>,
    pub description: Option<String>,
}

/// Says that a device was sent its magic packet.
#[derive(Debug, PartialEq)]
pub struct WakeResponse {
    pub success: bool,
    pub message: String,
    pub device_name: String,
}

/// The port that a request names, or the default.
pub open spec fn port_or(port: Option<u16>, default_port: u16) -> u16 {
    match port {
        Some(p) => p,
        None => default_port,
    }
}

/// The exported form of a device.
pub open spec fn exported(device: Device) -> ExportResponse {
    ExportResponse {
        name: device.name,
        mac_address: device.mac_address,
        port: device.port,
        ip_address: device.ip_address,
        description: device.description,
    }
}

/// The exported form of a device.
pub fn export_device(device: &Device) -> (r: ExportResponse)
    ensures
        r == exported(*device),
{
    ExportResponse {
        name: device.name.clone(),
        mac_address: device.mac_address.clone(),
        port: device.port,
        ip_address: copy_text(&device.ip_address),
        description: copy_text(&device.description),
    }
}

/// The exported form of each device, in order.
pub fn export_devices(devices: &Vec<Device>) -> (r: Vec<ExportResponse>)
    ensures
        r@.len() == devices@.len(),
        forall|i: int| 0 <= i < devices@.len() ==> #[trigger] r@[i] == exported(devices@[i]),
{
    let mut r: Vec<ExportResponse> = Vec::with_capacity(devices.len());
    let mut i: usize = 0;
    while i < devices.len()
        invariant
            i <= devices.len(),
            r@.len() == i,
            forall|j: int| 0 <= j < i ==> #[trigger] r@[j] == exported(devices@[j]),
        decreases devices.len() - i,
    {
        r.push(export_device(&devices[i]));
        i += 1;
    }
    r
}

/// Whether `device` is what the fields of a request make, whatever its id
/// and creation time are.
pub open spec fn made_from(
    device: Device,
    name: String,
    mac_address: String,
    ip_address: Option<String>,
    port: u16,
    description: Option<String>,
) -> bool {
    &&& device.wf()
    &&& device.name == name
    &&& device.mac_address == mac_address
    &&& device.ip_address == ip_address
    &&& device.port == port
    &&& device.description == description
}

/// The device that a request creates, given the id and the time that were
/// drawn for it, or nothing in place of either: a record with the
/// request's fields, and with the default port where the request names
/// none. A MAC address that is not valid is refused first; then a missing
/// id or time ends in `System`.
pub fn create_with(
    req: CreateDeviceRequest,
    default_port: u16,
    id: Option<String>,
    created_at: Option<Timestamp>,
) -> (r: Result<Device, AppError>)
    ensures
        r is Ok <==> valid_mac(req.mac_address@) && id is Some && created_at is Some,
        r matches Ok(d) ==> d == (Device {
            id: id->0,
            name: req.name,
            mac_address: req.mac_address,
            ip_address: req.ip_address,
            port: port_or(req.port, default_port),
            description: req.description,
            created_at: created_at->0,
        }),
        r matches Err(e) ==> if valid_mac(req.mac_address@) {
            e matches AppError::System(reason) && reason@ == Device::missing_part(id, created_at)
        } else {
            e matches AppError::InvalidMac(given) && given@ == req.mac_address@
        },
{
    let port = match req.port {
        Some(p) => p,
        None => default_port,
    };
    Device::assemble(
        id,
        created_at,
        req.name,
        req.mac_address,
        req.ip_address,
        port,
        req.description,
    )
}

/// The device that a request creates: a new record with the request's
/// fields, a fresh id and the current time, and with the default port
/// where the request names none. It is what `create_with` makes of what
/// the machine gave. A MAC address that is not valid is refused, and
/// nothing is drawn for it; with a valid one the only failure is
/// `System`, where the machine gives no id or no time.
pub fn create_device(req: CreateDeviceRequest, default_port: u16) -> (r: Result<Device, AppError>)
    ensures
        r is Ok ==> valid_mac(req.mac_address@),
        r matches Ok(d) ==> made_from(
            d,
            req.name,
            req.mac_address,
            req.ip_address,
            port_or(req.port, default_port),
            req.description,
        ),
        r matches Err(e) ==> if valid_mac(req.mac_address@) {
            e is System
        } else {
            e matches AppError::InvalidMac(given) && given@ == req.mac_address@
        },
{
    match validate_mac_address(req.mac_address.as_str()) {
        Ok(()) => {
            let (id, created_at) = draw_identity();
            create_with(req, default_port, id, created_at)
        },
        Err(e) => Err(e),
    }
}

/// Whether the MAC addresses of the first `n` requests are valid.
pub open spec fn valid_up_to(reqs: Seq<ImportRequest>, n: int) -> bool {
    forall|i: int| 0 <= i < n ==> valid_mac((#[trigger] reqs[i]).mac_address@)
}

/// What was drawn for the request at index `i`: the entry at that index,
/// or nothing where there is none.
pub open spec fn drawn_for(drawn: Seq<(Option<String>, Option<Timestamp>)>, i: int) -> (
    Option<String>,
    Option<Timestamp>,
) {
    if 0 <= i < drawn.len() {
        drawn[i]
    } else {
        (None, None)
    }
}

/// Whether the request at index `i` can be imported: its MAC address is
/// valid, and an id and a time were drawn for it.
pub open spec fn importable(
    reqs: Seq<ImportRequest>,
    drawn: Seq<(Option<String>, Option<Timestamp>)>,
    i: int,
) -> bool {
    &&& valid_mac(reqs[i].mac_address@)
    &&& drawn_for(drawn, i).0 is Some
    &&& drawn_for(drawn, i).1 is Some
}

/// Whether each of the first `n` requests can be imported.
pub open spec fn importable_up_to(
    reqs: Seq<ImportRequest>,
    drawn: Seq<(Option<String>, Option<Timestamp>)>,
    n: int,
) -> bool {
    forall|i: int| 0 <= i < n ==> #[trigger] importable(reqs, drawn, i)
}

/// The device that a request makes with the id and the time drawn for it.
pub open spec fn imported(req: ImportRequest, default_port: u16, id: String, at: Timestamp) -> Device {
    Device {
        id,
        name: req.name,
        mac_address: req.mac_address,
        ip_address: req.ip_address,
        port: port_or(req.port, default_port),
        description: req.description,
        created_at: at,
    }
}

/// Whether `e` is the error of the request at index `k`, which cannot be
/// imported: its MAC address where that is not valid, else what was not
/// drawn for it.
pub open spec fn is_import_error(
    reqs: Seq<ImportRequest>,
    drawn: Seq<(Option<String>, Option<Timestamp>)>,
    k: int,
    e: AppError,
) -> bool {
    if valid_mac(reqs[k].mac_address@) {
        e matches AppError::System(reason) && reason@ == Device::missing_part(
            drawn_for(drawn, k).0,
            drawn_for(drawn, k).1,
        )
    } else {
        e matches AppError::InvalidMac(given) && given@ == reqs[k].mac_address@
    }
}

/// Whether `r` is the outcome of the import of `reqs` with the ids and
/// times in `drawn`: every device, in order, where each request can be
/// imported, else the error of the first that cannot.
pub open spec fn is_import_of(
    reqs: Seq<ImportRequest>,
    default_port: u16,
    drawn: Seq<(Option<String>, Option<Timestamp>)>,
    r: Result<Vec<Device>, AppError>,
) -> bool {
    &&& r is Ok <==> importable_up_to(reqs, drawn, reqs.len() as int)
    &&& r matches Ok(devices) ==> {
        &&& devices@.len() == reqs.len()
        &&& forall|i: int|
            0 <= i < reqs.len() ==> #[trigger] devices@[i] == imported(
                reqs[i],
                default_port,
                drawn_for(drawn, i).0->0,
                drawn_for(drawn, i).1->0,
            )
    }
    &&& r matches Err(e) ==> exists|k: int|
        {
            &&& 0 <= k < reqs.len()
            &&& importable_up_to(reqs, drawn, k)
            &&& !#[trigger] importable(reqs, drawn, k)
            &&& is_import_error(reqs, drawn, k, e)
        }
}

/// The devices that an import creates, given the id and the time that
/// were drawn for each request: one record for each request, in order,
/// with the default port where the request names none. A request past the
/// end of `drawn` counts as one for which nothing was drawn. Where a
/// request has a MAC address that is not valid or lacks an id or a time,
/// nothing is imported, and the error is that of the first such request.
pub fn import_with(
    reqs: &Vec<ImportRequest>,
    default_port: u16,
    drawn: &Vec<(Option<String>, Option<Timestamp>)>,
) -> (r: Result<Vec<Device>, AppError>)
    ensures
        is_import_of(reqs@, default_port, drawn@, r),
{
    let mut devices: Vec<Device> = Vec::with_capacity(reqs.len());
    let mut i: usize = 0;
    while i < reqs.len()
        invariant
            i <= reqs.len(),
            devices@.len() == i,
            importable_up_to(reqs@, drawn@, i as int),
            forall|j: int|
                0 <= j < i ==> #[trigger] devices@[j] == imported(
                    reqs@[j],
                    default_port,
                    drawn_for(drawn@, j).0->0,
                    drawn_for(drawn@, j).1->0,
                ),
        decreases reqs.len() - i,
    {
        let req = &reqs[i];
        let port = match req.port {
            Some(p) => p,
            None => default_port,
        };
        let (id, at) = if i < drawn.len() {
            (copy_text(&drawn[i].0), drawn[i].1)
        } else {
            (None, None)
        };
        assert(id == drawn_for(drawn@, i as int).0 && at == drawn_for(drawn@, i as int).1);
        let made = Device::assemble(
            id,
            at,
            req.name.clone(),
            req.mac_address.clone(),
            copy_text(&req.ip_address),
            port,
            copy_text(&req.description),
        );
        match made {
            Ok(device) => {
                assert(importable(reqs@, drawn@, i as int));
                devices.push(device);
            },
            Err(e) => {
                assert(!importable(reqs@, drawn@, i as int));
                assert(is_import_error(reqs@, drawn@, i as int, e));
                return Err(e);
            },
        }
        i += 1;
    }
    Ok(devices)
}

/// Draws an id and a time for each request in turn, and stops before the
/// first request whose MAC address is not valid and after the first for
/// which the machine gave no id or no time: the import ends there.
fn draw_for_import(reqs: &Vec<ImportRequest>) -> (drawn: Vec<(Option<String>, Option<Timestamp>)>)
    ensures
        drawn@.len() <= reqs@.len(),
{
    let mut drawn: Vec<(Option<String>, Option<Timestamp>)> = Vec::new();
    let mut i: usize = 0;
    while i < reqs.len()
        invariant
            i <= reqs.len(),
            drawn@.len() == i,
        decreases reqs.len() - i,
    {
        if validate_mac_address(reqs[i].mac_address.as_str()).is_err() {
            return drawn;
        }
        let (id, at) = draw_identity();
        let complete = id.is_some() && at.is_some();
        drawn.push((id, at));
        if !complete {
            return drawn;
        }
        i += 1;
    }
    drawn
}

/// The devices that an import creates: one new record for each request, in
/// order, each with a fresh id and the current time. It is the import
/// that `import_with` makes of what the machine gave. Where a MAC address
/// is not valid, nothing is imported; the error carries the first such
/// address, unless the machine gave no id or no time for a request before
/// it, which ends in `System`.
pub fn import_devices(reqs: &Vec<ImportRequest>, default_port: u16) -> (r: Result<
    Vec<Device>,
    AppError,
>)
    ensures
        exists|drawn: Seq<(Option<String>, Option<Timestamp>)>| #[trigger]
            is_import_of(reqs@, default_port, drawn, r),
        r is Ok ==> valid_up_to(reqs@, reqs@.len() as int),
        r matches Ok(devices) ==> {
            &&& devices@.len() == reqs@.len()
            &&& forall|i: int|
                0 <= i < reqs@.len() ==> made_from(
                    #[trigger] devices@[i],
                    reqs@[i].name,
                    reqs@[i].mac_address,
                    reqs@[i].ip_address,
                    port_or(reqs@[i].port, default_port),
                    reqs@[i].description,
                )
        },
        r matches Err(e) ==> exists|k: int|
            {
                &&& 0 <= k < reqs@.len()
                &&& valid_up_to(reqs@, k)
                &&& if valid_mac(#[trigger] reqs@[k].mac_address@) {
                    e is System
                } else {
                    e matches AppError::InvalidMac(given) && given@ == reqs@[k].mac_address@
                }
            },
{
    let drawn = draw_for_import(reqs);
    let r = import_with(reqs, default_port, &drawn);
    proof {
        assert(is_import_of(reqs@, default_port, drawn@, r));
        if r is Ok {
            let devices = r->Ok_0;
            {
                assert forall|i: int| 0 <= i < reqs@.len() implies valid_mac(
                    (#[trigger] reqs@[i]).mac_address@,
                ) by {
                    assert(importable(reqs@, drawn@, i));
                }
                assert forall|i: int| 0 <= i < reqs@.len() implies made_from(
                    #[trigger] devices@[i],
                    reqs@[i].name,
                    reqs@[i].mac_address,
                    reqs@[i].ip_address,
                    port_or(reqs@[i].port, default_port),
                    reqs@[i].description,
                ) by {
                    assert(importable(reqs@, drawn@, i));
                }
            }
        } else {
            let e = r->Err_0;
            {
                let k = choose|k: int|
                    {
                        &&& 0 <= k < reqs@.len()
                        &&& importable_up_to(reqs@, drawn@, k)
                        &&& !#[trigger] importable(reqs@, drawn@, k)
                        &&& is_import_error(reqs@, drawn@, k, e)
                    };
                assert forall|i: int| 0 <= i < k implies valid_mac(
                    (#[trigger] reqs@[i]).mac_address@,
                ) by {
                    assert(importable(reqs@, drawn@, i));
                }
            }
        }
    }
    r
}

/// What a stored device becomes under an update request: each field that
/// the request names is replaced, each that it leaves out stays; the id
/// and the creation time stay.
pub open spec fn applied(existing: Device, req: UpdateDeviceRequest) -> Device {
    Device {
        id: existing.id,
        name: match req.name {
            Some(name) => name,
            None => existing.name,
        },
        mac_address: match req.mac_address {
            Some(mac) => mac,
            None => existing.mac_address,
        },
        ip_address: match req.ip_address {
            Some(ip) => Some(ip),
            None => existing.ip_address,
        },
        port: port_or(req.port, existing.port),
        description: match req.description {
            Some(description) => Some(description),
            None => existing.description,
        },
        created_at: existing.created_at,
    }
}

/// Applies an update request to a stored device. Fails exactly when the
/// request names a MAC address that is not valid.
pub fn update_device(existing: Device, req: UpdateDeviceRequest) -> (r: Result<Device, AppError>)
    ensures
        r is Ok <==> (req.mac_address matches Some(mac) ==> valid_mac(mac@)),
        r matches Ok(d) ==> d == applied(existing, req),
        r matches Ok(d) ==> (existing.wf() ==> d.wf()),
        r matches Err(e) ==> (e matches AppError::InvalidMac(given) && given@
            == req.mac_address->0@),
{
    let mac_address = match req.mac_address {
        Some(mac) => {
            match validate_mac_address(mac.as_str()) {
                Ok(()) => {},
                Err(e) => {
                    return Err(e);
                },
            }
            mac
        },
        None => existing.mac_address,
    };
    Ok(
        Device {
            id: existing.id,
            name: match req.name {
                Some(name) => name,
                None => existing.name,
            },
            mac_address,
            ip_address: match req.ip_address {
                Some(ip) => Some(ip),
                None => existing.ip_address,
            },
            port: match req.port {
                Some(p) => p,
                None => existing.port,
            },
            description: match req.description {
                Some(description) => Some(description),
                None => existing.description,
            },
            created_at: existing.created_at,
        },
    )
}

/// The device that a request by id is about: the one that the store found,
/// or the error that no device has the id.
pub fn require_device(found: Option<Device>, id: &str) -> (r: Result<Device, AppError>)
    ensures
        found is Some <==> r is Ok,
        r matches Ok(d) ==> Some(d) == found,
        r matches Err(e) ==> (e matches AppError::DeviceNotFound(missing) && missing@ == id@),
{
    match found {
        Some(device) => Ok(device),
        None => Err(AppError::DeviceNotFound(String::from_str(id))),
    }
}

/// The answer to an ARP lookup request, given how the lookup ended.
pub fn arp_lookup(answer: Result<String, ArpError>) -> (r: Result<ArpLookupResponse, ApiError>)
    ensures
        answer is Ok <==> r is Ok,
        r matches Ok(body) ==> Ok::<String, ArpError>(body.mac) == answer,
        r matches Err(e) ==> Err::<String, ArpError>(e->Arp_0) == answer && e is Arp,
{
    match answer {
        Ok(mac) => Ok(ArpLookupResponse { mac }),
        Err(e) => Err(ApiError::Arp(e)),
    }
}

/// The body that says that `device` was sent its magic packet.
pub fn wake_response(device: &Device) -> (r: WakeResponse)
    ensures
        r.success,
        r.message@ == "Wake-on-LAN packet sent to "@ + device.name@,
        r.device_name == device.name,
{
    WakeResponse {
        success: true,
        message: String::from_str("Wake-on-LAN packet sent to ").concat(device.name.as_str()),
        device_name: device.name.clone(),
    }
}

} // verus!
