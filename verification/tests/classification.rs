use networkmanager::device::classify_device_kind;
use networkmanager::device::state_with_reason_from_codes;
use networkmanager::device::DeviceKind;
use networkmanager::types::access_point_mode_from_code;
use networkmanager::types::connectivity_state_from_code;
use networkmanager::types::device_state_from_code;
use networkmanager::types::device_type_from_code;
use networkmanager::types::metered_status_from_code;
use networkmanager::types::state_reason_from_code;
use networkmanager::types::wireless_client_mode_from_code;
use networkmanager::types::AccessPointMode;
use networkmanager::types::ConnectivityState;
use networkmanager::types::DeviceState;
use networkmanager::types::DeviceStateReason;
use networkmanager::types::DeviceType;
use networkmanager::types::MeteredStatus;
use networkmanager::types::WirelessClientMode;
use networkmanager::Error;

#[test]
fn device_type_known_codes_classify() {
    assert_eq!(device_type_from_code(0).unwrap(), DeviceType::Unknown);
    assert_eq!(device_type_from_code(1).unwrap(), DeviceType::Ethernet);
    assert_eq!(device_type_from_code(2).unwrap(), DeviceType::Wifi);
    assert_eq!(device_type_from_code(13).unwrap(), DeviceType::Bridge);
    assert_eq!(device_type_from_code(14).unwrap(), DeviceType::Generic);
    assert_eq!(device_type_from_code(20).unwrap(), DeviceType::Veth);
    assert_eq!(device_type_from_code(29).unwrap(), DeviceType::Wireguard);
    assert_eq!(device_type_from_code(32).unwrap(), DeviceType::Loopback);
}

#[test]
fn device_type_unknown_codes_are_unsupported() {
    assert!(matches!(device_type_from_code(33), Err(Error::UnsupportedType)));
    assert!(matches!(device_type_from_code(999), Err(Error::UnsupportedType)));
    assert!(matches!(device_type_from_code(u32::MAX), Err(Error::UnsupportedType)));
}

#[test]
fn device_type_codes_round_trip() {
    let mut seen: u32 = 0;
    for code in 0..=32u32 {
        let t = device_type_from_code(code).unwrap();
        assert_eq!(t.code(), code);
        seen += 1;
    }
    assert_eq!(seen, 33);
}

#[test]
fn device_state_codes_classify() {
    assert_eq!(device_state_from_code(0).unwrap(), DeviceState::Unknown);
    assert_eq!(device_state_from_code(30).unwrap(), DeviceState::Disconnected);
    assert_eq!(device_state_from_code(100).unwrap(), DeviceState::Activated);
    assert_eq!(device_state_from_code(120).unwrap(), DeviceState::Failed);
    assert!(matches!(device_state_from_code(45), Err(Error::UnsupportedType)));
    assert!(matches!(device_state_from_code(130), Err(Error::UnsupportedType)));
}

#[test]
fn state_reason_codes_classify() {
    assert_eq!(state_reason_from_code(0).unwrap(), DeviceStateReason::NoReason);
    assert_eq!(state_reason_from_code(7).unwrap(), DeviceStateReason::NoSecrets);
    assert_eq!(state_reason_from_code(39).unwrap(), DeviceStateReason::UserRequested);
    assert_eq!(state_reason_from_code(67).unwrap(), DeviceStateReason::PeerNotFound);
    assert!(matches!(state_reason_from_code(68), Err(Error::UnsupportedType)));
}

#[test]
fn state_reason_codes_round_trip() {
    for code in 0..=67u32 {
        let r = state_reason_from_code(code).unwrap();
        assert_eq!(r.code(), code);
    }
}

#[test]
fn state_with_reason_decodes_both_codes() {
    let (s, r) = state_with_reason_from_codes(100, 0).unwrap();
    assert_eq!(s, DeviceState::Activated);
    assert_eq!(r, DeviceStateReason::NoReason);
    let (s, r) = state_with_reason_from_codes(120, 53).unwrap();
    assert_eq!(s, DeviceState::Failed);
    assert_eq!(r, DeviceStateReason::SsidNotFound);
}

#[test]
fn state_with_reason_rejects_either_unknown_code() {
    assert!(matches!(state_with_reason_from_codes(101, 0), Err(Error::UnsupportedType)));
    assert!(matches!(state_with_reason_from_codes(100, 999), Err(Error::UnsupportedType)));
    assert!(matches!(state_with_reason_from_codes(999, 999), Err(Error::UnsupportedType)));
}

#[test]
fn connectivity_codes_classify() {
    assert_eq!(connectivity_state_from_code(0).unwrap(), ConnectivityState::Unknown);
    assert_eq!(connectivity_state_from_code(1).unwrap(), ConnectivityState::NoConnectivity);
    assert_eq!(connectivity_state_from_code(2).unwrap(), ConnectivityState::Portal);
    assert_eq!(connectivity_state_from_code(3).unwrap(), ConnectivityState::Limited);
    assert_eq!(connectivity_state_from_code(4).unwrap(), ConnectivityState::Full);
    assert!(matches!(connectivity_state_from_code(5), Err(Error::UnsupportedType)));
}

#[test]
fn metered_codes_classify() {
    assert_eq!(metered_status_from_code(1).unwrap(), MeteredStatus::Yes);
    assert_eq!(metered_status_from_code(2).unwrap(), MeteredStatus::No);
    assert_eq!(metered_status_from_code(3).unwrap(), MeteredStatus::GuessYes);
    assert_eq!(metered_status_from_code(4).unwrap(), MeteredStatus::GuessNo);
    assert!(matches!(metered_status_from_code(5), Err(Error::UnsupportedType)));
}

#[test]
fn radio_mode_codes_classify() {
    assert_eq!(wireless_client_mode_from_code(1).unwrap(), WirelessClientMode::Adhoc);
    assert_eq!(wireless_client_mode_from_code(2).unwrap(), WirelessClientMode::Infrastructure);
    assert!(matches!(wireless_client_mode_from_code(5), Err(Error::UnsupportedType)));
    assert_eq!(access_point_mode_from_code(3).unwrap(), AccessPointMode::AccessPoint);
    assert_eq!(access_point_mode_from_code(4).unwrap(), AccessPointMode::Mesh);
    assert!(matches!(access_point_mode_from_code(5), Err(Error::UnsupportedType)));
}

#[test]
fn device_kind_dispatch_selects_specializations() {
    assert_eq!(classify_device_kind(2).unwrap(), DeviceKind::WiFi);
    assert_eq!(classify_device_kind(1).unwrap(), DeviceKind::Ethernet);
    assert_eq!(classify_device_kind(14).unwrap(), DeviceKind::Generic);
    assert_eq!(classify_device_kind(13).unwrap(), DeviceKind::Bridge);
    assert_eq!(classify_device_kind(20).unwrap(), DeviceKind::Veth);
}

#[test]
fn device_kind_dispatch_keeps_unknown_codes_apart_from_unspecialized() {
    // A known kind without a specialized facade is a distinct variant ...
    assert_eq!(classify_device_kind(10).unwrap(), DeviceKind::UnsupportedDevice);
    assert_eq!(classify_device_kind(16).unwrap(), DeviceKind::UnsupportedDevice);
    // ... while a code outside the enumeration is an error, never a variant.
    assert!(matches!(classify_device_kind(99), Err(Error::UnsupportedType)));
}
