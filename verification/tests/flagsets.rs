use networkmanager::flags::AccessPointSecurityFlags;
use networkmanager::flags::CapabilityFlags;
use networkmanager::flags::ConnectionFlags;
use networkmanager::flags::DeviceInterfaceFlags;
use networkmanager::flags::ReloadFlags;
use networkmanager::flags::WirelessClientCapabilityFlags;
use networkmanager::flags::AP_SEC_KEY_MGMT_PSK;
use networkmanager::flags::AP_SEC_KEY_MGMT_SAE;
use networkmanager::flags::CONNECTION_UNSAVED;
use networkmanager::flags::DEVICE_CAP_CARRIER_DETECT;
use networkmanager::flags::DEVICE_CAP_NM_SUPPORTED;
use networkmanager::flags::IFACE_CARRIER;
use networkmanager::flags::IFACE_UP;
use networkmanager::flags::RELOAD_CONF;
use networkmanager::flags::RELOAD_DNS_RC;
use networkmanager::flags::WIFI_CAP_RSN;
use networkmanager::flags::WIFI_CAP_WPA;

#[test]
fn unknown_bits_are_preserved() {
    // Bits the client does not know must survive the round trip untouched.
    let raw: u32 = 0xdead_beef;
    assert_eq!(CapabilityFlags::from_bits_retain(raw).bits(), raw);
    assert_eq!(AccessPointSecurityFlags::from_bits_retain(raw).bits(), raw);
    assert_eq!(DeviceInterfaceFlags::from_bits_retain(raw).bits(), raw);
    assert_eq!(WirelessClientCapabilityFlags::from_bits_retain(raw).bits(), raw);
    assert_eq!(ReloadFlags::from_bits_retain(raw).bits(), raw);
    assert_eq!(ConnectionFlags::from_bits_retain(raw).bits(), raw);
}

#[test]
fn contains_needs_every_bit() {
    let caps = CapabilityFlags::from_bits_retain(DEVICE_CAP_NM_SUPPORTED | DEVICE_CAP_CARRIER_DETECT);
    assert!(caps.contains(DEVICE_CAP_NM_SUPPORTED));
    assert!(caps.contains(DEVICE_CAP_NM_SUPPORTED | DEVICE_CAP_CARRIER_DETECT));
    assert!(!caps.contains(0x4));
    assert!(!caps.contains(DEVICE_CAP_NM_SUPPORTED | 0x4));
}

#[test]
fn intersects_needs_any_bit() {
    let sec = AccessPointSecurityFlags::from_bits_retain(AP_SEC_KEY_MGMT_PSK);
    assert!(sec.intersects(AP_SEC_KEY_MGMT_PSK | AP_SEC_KEY_MGMT_SAE));
    assert!(!sec.intersects(AP_SEC_KEY_MGMT_SAE));
}

#[test]
fn empty_means_no_flag_set() {
    assert!(ReloadFlags::from_bits_retain(0).is_empty());
    assert!(!ReloadFlags::from_bits_retain(RELOAD_CONF).is_empty());
}

#[test]
fn documented_bit_values() {
    assert_eq!(RELOAD_CONF, 0x1);
    assert_eq!(RELOAD_DNS_RC, 0x2);
    assert_eq!(CONNECTION_UNSAVED, 0x1);
    assert_eq!(IFACE_UP, 0x1);
    assert_eq!(IFACE_CARRIER, 0x10000);
    assert_eq!(WIFI_CAP_WPA, 0x10);
    assert_eq!(WIFI_CAP_RSN, 0x20);
}

#[test]
fn unsaved_flag_reads_through_connection_flags() {
    let flags = ConnectionFlags::from_bits_retain(CONNECTION_UNSAVED | 0x8000_0000);
    assert!(flags.contains(CONNECTION_UNSAVED));
    assert_eq!(flags.bits(), CONNECTION_UNSAVED | 0x8000_0000);
}
