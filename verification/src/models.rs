//! The device record and how one is made.

use crate::error::AppError;
use crate::mac::{decode_mac, valid_mac};
use vstd::prelude::*;

verus! {

/// A point in time, counted from the start of 1970 in UTC.
#[derive(Debug, Clone, Copy, PartialEq, Eq, Structural)]
pub struct Timestamp {
    /// Whole seconds.
    pub secs: i64,
    /// The nanoseconds beyond them.
    pub nanos: u32,
}

/// One host that can be woken.
#[derive(Debug, PartialEq)]
pub struct Device {
    /// Unique among the devices of a store; never changes.
    pub id: String,
    pub name: String,
    /// A MAC address in any accepted notation.
    pub mac_address: String,
    pub ip_address: Option<String>,
    /// The UDP port that the magic packet is sent to.
    pub port: u16,
    pub description: Option<String>,
    /// Set once, when the device is made.
    pub created_at: Timestamp,
}

/// A copy of an optional string.
pub fn copy_text(text: &Option<String>) -> (r: Option<String>)
    ensures
        r == *text,
{
    match text {
        Some(s) => Some(s.clone()),
        None => None,
    }
}

impl Clone for Device {
    fn clone(&self) -> (r: Self)
        ensures
            r == *self,
    {
        Device {
            id: self.id.clone(),
            name: self.name.clone(),
            mac_address: self.mac_address.clone(),
            ip_address: copy_text(&self.ip_address),
            port: self.port,
            description: copy_text(&self.description),
            created_at: self.created_at,
        }
    }
}

/// `getrandom::Error`, which says why the system gave no random bytes.
/// Nothing is known of a value.
#[verifier::external_type_specification]
#[verifier::external_body]
pub struct ExRandomError(getrandom::Error);

/// `std::time::SystemTimeError`, which says that the clock stands before
/// the point it was compared with. Nothing is known of a value.
#[verifier::external_type_specification]
#[verifier::external_body]
pub struct ExSystemTimeError(std::time::SystemTimeError);

/// The text of the version 4 UUID that is made of sixteen random bytes.
pub uninterp spec fn uuid_text(bytes: Seq<u8>) -> Seq<char>;

/// Sixteen bytes from the system's random source, by `getrandom::fill`,
/// or the crate's error where the source fails. Nothing is claimed of the
/// bytes.
#[verifier::external_body]
fn random_bytes() -> Result<[u8; 16], getrandom::Error> {
    let mut bytes = [0u8; 16];
    match getrandom::fill(&mut bytes) {
        Ok(()) => Ok(bytes),
        Err(e) => Err(e),
    }
}

/// The version 4 UUID that `uuid::Builder::from_random_bytes` makes of the
/// bytes, written out by its `Display`: the hyphenated notation, which has
/// 36 characters. The text depends on the bytes alone.
#[verifier::external_body]
fn format_uuid(bytes: [u8; 16]) -> (id: String)
    ensures
        id@ == uuid_text(bytes@),
        id@.len() == 36,
{
    uuid::Builder::from_random_bytes(bytes).into_uuid().to_string()
}

/// How long ago 1970 began, by `SystemTime::elapsed` on
/// `std::time::UNIX_EPOCH`: whole seconds, and the nanoseconds beyond
/// them, which are fewer than a thousand million. A clock that stands
/// before 1970 gives the error.
#[verifier::external_body]
fn since_epoch() -> (r: Result<(u64, u32), std::time::SystemTimeError>)
    ensures
        r matches Ok(elapsed) ==> elapsed.1 < 1_000_000_000,
{
    match std::time::UNIX_EPOCH.elapsed() {
        Ok(elapsed) => Ok((elapsed.as_secs(), elapsed.subsec_nanos())),
        Err(e) => Err(e),
    }
}

/// The point in time that `chrono::DateTime::from_timestamp` makes of the
/// seconds and nanoseconds, read back by `timestamp` and
/// `timestamp_subsec_nanos`, which give the same two numbers. Nothing
/// comes back where chrono cannot represent the time; it can represent
/// every time from 1970 to the end of the year 9999, its own limit being
/// far later.
#[verifier::external_body]
fn representable_time(secs: i64, nanos: u32) -> (r: Option<Timestamp>)
    ensures
        r matches Some(at) ==> at.secs == secs && at.nanos == nanos,
        0 <= secs <= 253_402_300_799 && nanos < 1_000_000_000 ==> r is Some,
{
    match chrono::DateTime::from_timestamp(secs, nanos) {
        Some(at) => Some(Timestamp { secs: at.timestamp(), nanos: at.timestamp_subsec_nanos() }),
        None => None,
    }
}

/// A fresh random identifier, where the system gives random bytes.
fn fresh_id() -> (r: Option<String>)
    ensures
        r matches Some(id) ==> id@.len() == 36,
{
    match random_bytes() {
        Ok(bytes) => Some(format_uuid(bytes)),
        Err(_) => None,
    }
}

/// The current time, where the clock shows a time from 1970 on that can be
/// represented.
fn current_time() -> (r: Option<Timestamp>)
    ensures
        r matches Some(at) ==> at.secs >= 0 && at.nanos < 1_000_000_000,
{
    match since_epoch() {
        Ok((secs, nanos)) => {
            if secs <= 0x7fff_ffff_ffff_ffff {
                representable_time(secs as i64, nanos)
            } else {
                None
            }
        },
        Err(_) => None,
    }
}

/// Checks that `mac_str` denotes a MAC address: twelve hexadecimal digits
/// once colons, dashes, dots and spaces are removed.
pub fn validate_mac_address(mac_str: &str) -> (r: Result<(), AppError>)
    ensures
        r is Ok <==> valid_mac(mac_str@),
        r matches Err(e) ==> (e matches AppError::InvalidMac(given) && given@ == mac_str@),
{
    match decode_mac(mac_str) {
        Ok(_) => Ok(()),
        Err(_) => Err(AppError::InvalidMac(String::from_str(mac_str))),
    }
}

/// What the machine gives for one new device: a fresh random id and the
/// current time, or nothing in place of either where it has none to give.
pub fn draw_identity() -> (drawn: (Option<String>, Option<Timestamp>))
    ensures
        drawn.0 matches Some(id) ==> id@.len() == 36,
        drawn.1 matches Some(at) ==> at.secs >= 0 && at.nanos < 1_000_000_000,
{
    (fresh_id(), current_time())
}

impl Device {
    /// Whether the record may stand in a store: its MAC address is valid.
    pub open spec fn wf(&self) -> bool {
        valid_mac(self.mac_address@)
    }

    /// The device with the given identity and fields, provided that the MAC
    /// address is valid.
    pub fn with_identity(
        id: String,
        created_at: Timestamp,
        name: String,
        mac_address: String,
        ip_address: Option<String>,
        port: u16,
        description: Option<String>,
    ) -> (r: Result<Device, AppError>)
        ensures
            r is Ok <==> valid_mac(mac_address@),
            r matches Ok(d) ==> d == (Device {
                id,
                name,
                mac_address,
                ip_address,
                port,
                description,
                created_at,
            }),
            r matches Err(e) ==> (e matches AppError::InvalidMac(given) && given@
                == mac_address@),
    {
        match validate_mac_address(mac_address.as_str()) {
            Ok(()) => Ok(
                Device { id, name, mac_address, ip_address, port, description, created_at },
            ),
            Err(e) => Err(e),
        }
    }

    /// What `assemble` answers where the machine gave no id or no time.
    pub open spec fn missing_part(id: Option<String>, created_at: Option<Timestamp>) -> Seq<
        char,
    > {
        if id is None {
            "no random source"@
        } else {
            "no usable clock"@
        }
    }

    /// The device with the given fields, given the id and the time that the
    /// machine gave, or nothing in place of either where it gave none. A
    /// MAC address that is not valid is refused first; then a missing id or
    /// time ends in `System`.
    pub fn assemble(
        id: Option<String>,
        created_at: Option<Timestamp>,
        name: String,
        mac_address: String,
        ip_address: Option<String>,
        port: u16,
        description: Option<String>,
    ) -> (r: Result<Device, AppError>)
        ensures
            r is Ok <==> valid_mac(mac_address@) && id is Some && created_at is Some,
            r matches Ok(d) ==> d == (Device {
                id: id->0,
                name,
                mac_address,
                ip_address,
                port,
                description,
                created_at: created_at->0,
            }),
            r matches Err(e) ==> if valid_mac(mac_address@) {
                e matches AppError::System(reason) && reason@ == Device::missing_part(
                    id,
                    created_at,
                )
            } else {
                e matches AppError::InvalidMac(given) && given@ == mac_address@
            },
    {
        match validate_mac_address(mac_address.as_str()) {
            Ok(()) => {},
            Err(e) => {
                return Err(e);
            },
        }
        match (id, created_at) {
            (Some(id), Some(created_at)) => Device::with_identity(
                id,
                created_at,
                name,
                mac_address,
                ip_address,
                port,
                description,
            ),
            (None, _) => Err(AppError::System(String::from_str("no random source"))),
            (Some(_), None) => Err(AppError::System(String::from_str("no usable clock"))),
        }
    }

    /// A new device with a fresh random id and the current time as its
    /// creation time. A MAC address that is not valid is refused, and then
    /// neither an id nor a timestamp is made. With a valid one the device
    /// is made, unless the machine gives no random bytes or no usable
    /// time, which ends in `System`.
    pub fn new(
        name: String,
        mac_address: String,
        ip_address: Option<String>,
        port: u16,
        description: Option<String>,
    ) -> (r: Result<Device, AppError>)
        ensures
            r is Ok ==> valid_mac(mac_address@),
            r matches Ok(d) ==> {
                &&& d.wf()
                &&& d.id@.len() == 36
                &&& d.created_at.secs >= 0
                &&& d.created_at.nanos < 1_000_000_000
                &&& d.name == name
                &&& d.mac_address == mac_address
                &&& d.ip_address == ip_address
                &&& d.port == port
                &&& d.description == description
            },
            r matches Err(e) ==> if valid_mac(mac_address@) {
                e is System
            } else {
                e matches AppError::InvalidMac(given) && given@ == mac_address@
            },
    {
        match validate_mac_address(mac_address.as_str()) {
            Ok(()) => {
                let (id, created_at) = draw_identity();
                Device::assemble(id, created_at, name, mac_address, ip_address, port, description)
            },
            Err(e) => Err(e),
        }
    }
}

} // verus!
