//! The errors of each part of the library, and how they are classified.

use vstd::prelude::*;

verus! {

/// The three classes that every error falls into.
#[derive(Debug, Clone, Copy, PartialEq, Eq, Structural)]
pub enum ErrorKind {
    /// The caller handed in something malformed.
    Validation,
    /// What was asked for does not exist.
    NotFound,
    /// The machine or its storage failed.
    Internal,
}

/// Errors of the device model and the device store.
#[derive(Debug, PartialEq)]
pub enum AppError {
    /// The string is no MAC address; it is carried as it was given.
    InvalidMac(String),
    /// No device has this id.
    DeviceNotFound(String),
    /// The backing file could not be read or written.
    StorageIo(String),
    /// The backing file does not hold a list of devices.
    StorageParse(String),
    /// The machine gave no random bytes or no usable time; the reason is
    /// carried.
    System(String),
}

/// Errors of waking a device.
#[derive(Debug, PartialEq)]
pub enum WolError {
    /// The device's MAC address is no MAC address; it is carried as it
    /// stands in the device.
    InvalidMac(String),
    /// The packet could not be sent.
    Network(String),
}

/// Errors of an ARP lookup.
#[derive(Debug, PartialEq)]
pub enum ArpError {
    /// The string is no IPv4 address; it is carried as it was given.
    InvalidIp(String),
    /// The ARP table could not be read.
    Query(String),
    /// The ARP table has no entry for this address.
    NotFound(String),
}

/// Any error that an operation of the service can end in.
#[derive(Debug, PartialEq)]
pub enum ApiError {
    App(AppError),
    Wol(WolError),
    Arp(ArpError),
}

/// The body of every error response.
#[derive(Debug, PartialEq)]
pub struct ErrorResponse {
    /// Always "error".
    pub status: String,
    /// What went wrong, in words.
    pub message: String,
}

/// `prefix` followed by `detail`.
fn prefixed(prefix: &str, detail: &String) -> (r: String)
    ensures
        r@ == prefix@ + detail@,
{
    String::from_str(prefix).concat(detail.as_str())
}

impl AppError {
    pub open spec fn kind_spec(&self) -> ErrorKind {
        match self {
            AppError::InvalidMac(_) => ErrorKind::Validation,
            AppError::DeviceNotFound(_) => ErrorKind::NotFound,
            AppError::StorageIo(_) => ErrorKind::Internal,
            AppError::StorageParse(_) => ErrorKind::Internal,
            AppError::System(_) => ErrorKind::Internal,
        }
    }

    pub open spec fn message_spec(&self) -> Seq<char> {
        match self {
            AppError::InvalidMac(mac) => "Invalid MAC address format: "@ + mac@,
            AppError::DeviceNotFound(id) => "Device not found: "@ + id@,
            AppError::StorageIo(detail) => "Storage I/O error: "@ + detail@,
            AppError::StorageParse(detail) => "Storage parse error: "@ + detail@,
            AppError::System(detail) => "System error: "@ + detail@,
        }
    }

    pub fn kind(&self) -> (k: ErrorKind)
        ensures
            k == self.kind_spec(),
    {
        match self {
            AppError::InvalidMac(_) => ErrorKind::Validation,
            AppError::DeviceNotFound(_) => ErrorKind::NotFound,
            AppError::StorageIo(_) => ErrorKind::Internal,
            AppError::StorageParse(_) => ErrorKind::Internal,
            AppError::System(_) => ErrorKind::Internal,
        }
    }

    /// The error in words.
    pub fn message(&self) -> (m: String)
        ensures
            m@ == self.message_spec(),
    {
        match self {
            AppError::InvalidMac(mac) => prefixed("Invalid MAC address format: ", mac),
            AppError::DeviceNotFound(id) => prefixed("Device not found: ", id),
            AppError::StorageIo(detail) => prefixed("Storage I/O error: ", detail),
            AppError::StorageParse(detail) => prefixed("Storage parse error: ", detail),
            AppError::System(detail) => prefixed("System error: ", detail),
        }
    }
}

impl WolError {
    pub open spec fn kind_spec(&self) -> ErrorKind {
        match self {
            WolError::InvalidMac(_) => ErrorKind::Validation,
            WolError::Network(_) => ErrorKind::Internal,
        }
    }

    pub open spec fn message_spec(&self) -> Seq<char> {
        match self {
            WolError::InvalidMac(mac) => "Invalid MAC address: "@ + mac@,
            WolError::Network(detail) => "Network error: "@ + detail@,
        }
    }

    pub fn kind(&self) -> (k: ErrorKind)
        ensures
            k == self.kind_spec(),
    {
        match self {
            WolError::InvalidMac(_) => ErrorKind::Validation,
            WolError::Network(_) => ErrorKind::Internal,
        }
    }

    /// The error in words.
    pub fn message(&self) -> (m: String)
        ensures
            m@ == self.message_spec(),
    {
        match self {
            WolError::InvalidMac(mac) => prefixed("Invalid MAC address: ", mac),
            WolError::Network(detail) => prefixed("Network error: ", detail),
        }
    }
}

impl ArpError {
    pub open spec fn kind_spec(&self) -> ErrorKind {
        match self {
            ArpError::InvalidIp(_) => ErrorKind::Validation,
            ArpError::Query(_) => ErrorKind::Internal,
            ArpError::NotFound(_) => ErrorKind::NotFound,
        }
    }

    pub open spec fn message_spec(&self) -> Seq<char> {
        match self {
            ArpError::InvalidIp(ip) => "Invalid IP address format: "@ + ip@,
            ArpError::Query(detail) => "Failed to query ARP table: "@ + detail@,
            ArpError::NotFound(ip) => "MAC address not found for IP "@ + ip@,
        }
    }

    pub fn kind(&self) -> (k: ErrorKind)
        ensures
            k == self.kind_spec(),
    {
        match self {
            ArpError::InvalidIp(_) => ErrorKind::Validation,
            ArpError::Query(_) => ErrorKind::Internal,
            ArpError::NotFound(_) => ErrorKind::NotFound,
        }
    }

    /// The error in words.
    pub fn message(&self) -> (m: String)
        ensures
            m@ == self.message_spec(),
    {
        match self {
            ArpError::InvalidIp(ip) => prefixed("Invalid IP address format: ", ip),
            ArpError::Query(detail) => prefixed("Failed to query ARP table: ", detail),
            ArpError::NotFound(ip) => prefixed("MAC address not found for IP ", ip),
        }
    }
}

impl From<AppError> for ApiError {
    fn from(e: AppError) -> (r: ApiError) {
        ApiError::App(e)
    }
}

impl vstd::std_specs::convert::FromSpecImpl<AppError> for ApiError {
    open spec fn obeys_from_spec() -> bool {
        true
    }

    open spec fn from_spec(e: AppError) -> ApiError {
        ApiError::App(e)
    }
}

impl From<WolError> for ApiError {
    fn from(e: WolError) -> (r: ApiError) {
        ApiError::Wol(e)
    }
}

impl vstd::std_specs::convert::FromSpecImpl<WolError> for ApiError {
    open spec fn obeys_from_spec() -> bool {
        true
    }

    open spec fn from_spec(e: WolError) -> ApiError {
        ApiError::Wol(e)
    }
}

impl From<ArpError> for ApiError {
    fn from(e: ArpError) -> (r: ApiError) {
        ApiError::Arp(e)
    }
}

impl vstd::std_specs::convert::FromSpecImpl<ArpError> for ApiError {
    open spec fn obeys_from_spec() -> bool {
        true
    }

    open spec fn from_spec(e: ArpError) -> ApiError {
        ApiError::Arp(e)
    }
}

/// The HTTP status that stands for a class of error.
pub open spec fn status_of(kind: ErrorKind) -> u16 {
    match kind {
        ErrorKind::Validation => 400,
        ErrorKind::NotFound => 404,
        ErrorKind::Internal => 500,
    }
}

impl ApiError {
    pub open spec fn kind_spec(&self) -> ErrorKind {
        match self {
            ApiError::App(e) => e.kind_spec(),
            ApiError::Wol(e) => e.kind_spec(),
            ApiError::Arp(e) => e.kind_spec(),
        }
    }

    pub open spec fn message_spec(&self) -> Seq<char> {
        match self {
            ApiError::App(e) => e.message_spec(),
            ApiError::Wol(e) => e.message_spec(),
            ApiError::Arp(e) => e.message_spec(),
        }
    }

    pub fn kind(&self) -> (k: ErrorKind)
        ensures
            k == self.kind_spec(),
    {
        match self {
            ApiError::App(e) => e.kind(),
            ApiError::Wol(e) => e.kind(),
            ApiError::Arp(e) => e.kind(),
        }
    }

    /// The HTTP status of the response that reports this error: 400 for a
    /// malformed input, 404 for something that does not exist, 500 otherwise.
    pub fn status_code(&self) -> (code: u16)
        ensures
            code == status_of(self.kind_spec()),
    {
        match self.kind() {
            ErrorKind::Validation => 400,
            ErrorKind::NotFound => 404,
            ErrorKind::Internal => 500,
        }
    }

    /// The error in words: the message of the error that it wraps.
    pub fn message(&self) -> (m: String)
        ensures
            m@ == self.message_spec(),
    {
        match self {
            ApiError::App(e) => e.message(),
            ApiError::Wol(e) => e.message(),
            ApiError::Arp(e) => e.message(),
        }
    }

    /// The status and body of the response that reports this error.
    pub fn into_response(self) -> (r: (u16, ErrorResponse))
        ensures
            r.0 == status_of(self.kind_spec()),
            r.1.status@ == "error"@,
            r.1.message@ == self.message_spec(),
    {
        let code = self.status_code();
        let body = ErrorResponse { status: String::from_str("error"), message: self.message() };
        (code, body)
    }
}

} // verus!
