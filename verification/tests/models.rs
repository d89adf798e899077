use jumpers::error::AppError;
use jumpers::models::{draw_identity, validate_mac_address, Device, Timestamp};

#[test]
fn validate_mac_with_colons() {
    assert!(validate_mac_address("AA:BB:CC:DD:EE:FF").is_ok());
}

#[test]
fn validate_mac_with_dashes() {
    assert!(validate_mac_address("AA-BB-CC-DD-EE-FF").is_ok());
}

#[test]
fn validate_mac_with_dots() {
    assert!(validate_mac_address("AABB.CCDD.EEFF").is_ok());
}

#[test]
fn validate_mac_without_separators() {
    assert!(validate_mac_address("AABBCCDDEEFF").is_ok());
}

#[test]
fn validate_mac_lowercase() {
    assert!(validate_mac_address("aa:bb:cc:dd:ee:ff").is_ok());
}

#[test]
fn validate_mac_mixed_case() {
    assert!(validate_mac_address("Aa:Bb:Cc:Dd:Ee:Ff").is_ok());
}

#[test]
fn validate_mac_with_spaces() {
    assert!(validate_mac_address("AA BB CC DD EE FF").is_ok());
}

#[test]
fn validate_mac_mixed_separators() {
    assert!(validate_mac_address("AA:BB-CC.DD EE:FF").is_ok());
}

#[test]
fn reject_mac_too_short() {
    let result = validate_mac_address("AA:BB:CC:DD:EE");
    assert!(result.is_err());
    assert!(matches!(result.unwrap_err(), AppError::InvalidMac(_)));
}

#[test]
fn reject_mac_too_long() {
    let result = validate_mac_address("AA:BB:CC:DD:EE:FF:00");
    assert!(result.is_err());
    assert!(matches!(result.unwrap_err(), AppError::InvalidMac(_)));
}

#[test]
fn reject_mac_empty() {
    let result = validate_mac_address("");
    assert!(result.is_err());
    assert!(matches!(result.unwrap_err(), AppError::InvalidMac(_)));
}

#[test]
fn reject_mac_invalid_hex_chars() {
    let result = validate_mac_address("GG:HH:II:JJ:KK:LL");
    assert!(result.is_err());
    assert!(matches!(result.unwrap_err(), AppError::InvalidMac(_)));
}

#[test]
fn reject_mac_special_chars() {
    let result = validate_mac_address("AA:BB:CC:DD:EE:F!");
    assert!(result.is_err());
}

#[test]
fn reject_mac_partial_invalid() {
    let result = validate_mac_address("AA:BB:CC:DD:EE:ZZ");
    assert!(result.is_err());
    assert!(matches!(result.unwrap_err(), AppError::InvalidMac(_)));
}

#[test]
fn create_device_with_valid_mac() {
    let device = Device::new(
        "Test Device".to_string(),
        "AA:BB:CC:DD:EE:FF".to_string(),
        Some("192.168.1.100".to_string()),
        9,
        Some("Test description".to_string()),
    );
    assert!(device.is_ok());
    let device = device.unwrap();
    assert_eq!(device.name, "Test Device");
    assert_eq!(device.mac_address, "AA:BB:CC:DD:EE:FF");
    assert_eq!(device.port, 9);
}

#[test]
fn create_device_with_invalid_mac_fails() {
    let result = Device::new("Test".to_string(), "invalid-mac".to_string(), None, 9, None);
    assert!(result.is_err());
    assert!(matches!(result.unwrap_err(), AppError::InvalidMac(_)));
}

#[test]
fn create_device_with_optional_fields_none() {
    let device = Device::new(
        "Minimal Device".to_string(),
        "11:22:33:44:55:66".to_string(),
        None,
        9,
        None,
    )
    .unwrap();

    assert!(device.ip_address.is_none());
    assert!(device.description.is_none());
}

#[test]
fn invalid_mac_error_carries_the_input() {
    let result = validate_mac_address("AA:BB:CC:DD:EE");
    assert_eq!(result, Err(AppError::InvalidMac("AA:BB:CC:DD:EE".to_string())));
}

#[test]
fn reject_mac_with_sign_in_place_of_a_digit() {
    assert!(validate_mac_address("+A:BB:CC:DD:EE:FF").is_err());
}

#[test]
fn reject_mac_with_wide_characters() {
    assert!(validate_mac_address("\u{20ac}\u{20ac}\u{20ac}\u{20ac}").is_err());
    assert!(validate_mac_address("\u{e9}\u{e9}\u{e9}\u{e9}\u{e9}\u{e9}").is_err());
}

#[test]
fn reject_mac_of_separators_only() {
    assert!(validate_mac_address(":-. ").is_err());
}

#[test]
fn new_devices_get_ids_of_their_own() {
    let a = Device::new("A".to_string(), "AA:BB:CC:DD:EE:FF".to_string(), None, 9, None).unwrap();
    let b = Device::new("B".to_string(), "AA:BB:CC:DD:EE:FF".to_string(), None, 9, None).unwrap();
    assert_eq!(a.id.chars().count(), 36);
    assert_eq!(b.id.chars().count(), 36);
    assert_ne!(a.id, b.id);
}

#[test]
fn new_device_is_stamped_with_the_present() {
    let before = chrono::Utc::now().timestamp();
    let device =
        Device::new("A".to_string(), "AA:BB:CC:DD:EE:FF".to_string(), None, 9, None).unwrap();
    let after = chrono::Utc::now().timestamp();
    assert!(before <= device.created_at.secs);
    assert!(device.created_at.secs <= after);
}

#[test]
fn clone_of_a_device_is_equal() {
    let device = Device::new(
        "Clone".to_string(),
        "11:22:33:44:55:66".to_string(),
        Some("10.0.0.1".to_string()),
        7,
        None,
    )
    .unwrap();
    assert_eq!(device.clone(), device);
}

fn assembled(id: Option<&str>, at: Option<Timestamp>, mac: &str) -> Result<Device, AppError> {
    Device::assemble(
        id.map(|text| text.to_string()),
        at,
        "Gaming PC".to_string(),
        mac.to_string(),
        None,
        9,
        Some("rig".to_string()),
    )
}

#[test]
fn assemble_makes_the_device_of_its_parts() {
    let at = Timestamp { secs: 1_700_000_000, nanos: 7 };
    assert_eq!(
        assembled(Some("id-1"), Some(at), "AA:BB:CC:DD:EE:FF"),
        Ok(Device {
            id: "id-1".to_string(),
            name: "Gaming PC".to_string(),
            mac_address: "AA:BB:CC:DD:EE:FF".to_string(),
            ip_address: None,
            port: 9,
            description: Some("rig".to_string()),
            created_at: at,
        })
    );
}

#[test]
fn assemble_reports_a_missing_id_or_time() {
    let at = Timestamp { secs: 1_700_000_000, nanos: 7 };
    assert_eq!(
        assembled(None, Some(at), "AA:BB:CC:DD:EE:FF"),
        Err(AppError::System("no random source".to_string()))
    );
    assert_eq!(
        assembled(None, None, "AA:BB:CC:DD:EE:FF"),
        Err(AppError::System("no random source".to_string()))
    );
    assert_eq!(
        assembled(Some("id-1"), None, "AA:BB:CC:DD:EE:FF"),
        Err(AppError::System("no usable clock".to_string()))
    );
}

#[test]
fn assemble_refuses_a_bad_mac_first() {
    assert_eq!(assembled(None, None, "AA:BB"), Err(AppError::InvalidMac("AA:BB".to_string())));
}

#[test]
fn with_identity_keeps_what_it_is_given() {
    let at = Timestamp { secs: 5, nanos: 6 };
    let device = Device::with_identity(
        "id-7".to_string(),
        at,
        "NAS".to_string(),
        "11-22-33-44-55-66".to_string(),
        Some("10.0.0.2".to_string()),
        7,
        None,
    )
    .unwrap();
    assert_eq!(device.id, "id-7");
    assert_eq!(device.created_at, at);
    assert_eq!(device.port, 7);
}

#[test]
fn new_device_id_is_a_version_four_uuid() {
    let device =
        Device::new("A".to_string(), "AA:BB:CC:DD:EE:FF".to_string(), None, 9, None).unwrap();
    let parsed = uuid::Uuid::parse_str(&device.id).unwrap();
    assert_eq!(parsed.get_version_num(), 4);
    assert_eq!(parsed.to_string(), device.id);
}

#[test]
fn new_device_time_is_one_chrono_takes() {
    let device =
        Device::new("A".to_string(), "AA:BB:CC:DD:EE:FF".to_string(), None, 9, None).unwrap();
    let at = chrono::DateTime::from_timestamp(device.created_at.secs, device.created_at.nanos);
    assert!(at.is_some());
    assert!(device.created_at.nanos < 1_000_000_000);
}

#[test]
fn drawn_identity_is_an_id_and_the_present() {
    let before = chrono::Utc::now().timestamp();
    let (id, at) = draw_identity();
    let after = chrono::Utc::now().timestamp();
    let (other, _) = draw_identity();
    let id = id.unwrap();
    let at = at.unwrap();
    assert_eq!(id.chars().count(), 36);
    assert_ne!(Some(id), other);
    assert!(before <= at.secs && at.secs <= after);
    assert!(at.nanos < 1_000_000_000);
}
