use networkmanager::bus::BusAddress;
use networkmanager::device::Device;
use networkmanager::wireless::last_scan_from_wire;
use networkmanager::wireless::last_seen_from_wire;
use networkmanager::wireless::ScanOptions;
use networkmanager::wireless::Ssid;
use networkmanager::wireless::WirelessDevice;

fn wifi_device() -> WirelessDevice {
    WirelessDevice {
        parent: Device::new(BusAddress::new(
            "org.freedesktop.NetworkManager".to_owned(),
            "/org/freedesktop/NetworkManager/Devices/3".to_owned(),
        )),
    }
}

#[test]
fn access_points_keep_order_and_service() {
    let w = wifi_device();
    let paths = vec![
        "/org/freedesktop/NetworkManager/AccessPoint/11".to_owned(),
        "/org/freedesktop/NetworkManager/AccessPoint/7".to_owned(),
    ];
    let aps = w.access_points_from_paths(paths.clone());
    assert_eq!(aps.len(), 2);
    for (ap, p) in aps.iter().zip(paths.iter()) {
        assert_eq!(ap.object_path(), p);
        assert_eq!(ap.address.destination, w.parent.address.destination);
    }
}

#[test]
fn active_access_point_root_path_is_absent() {
    let w = wifi_device();
    assert!(w.active_access_point_from_path("/".to_owned()).is_none());
}

#[test]
fn active_access_point_real_path_is_present() {
    let w = wifi_device();
    let ap = w
        .active_access_point_from_path("/org/freedesktop/NetworkManager/AccessPoint/11".to_owned())
        .unwrap();
    assert_eq!(ap.object_path(), "/org/freedesktop/NetworkManager/AccessPoint/11");
}

#[test]
fn hidden_ssid_is_present_but_empty() {
    let w = wifi_device();
    // Associated with a hidden network: the access point reading is present ...
    let ap = w.active_access_point_from_path(
        "/org/freedesktop/NetworkManager/AccessPoint/11".to_owned(),
    );
    assert!(ap.is_some());
    // ... and its SSID is an empty octet sequence, still a present value,
    let ssid = Some(Ssid::from_bytes(Vec::new()));
    assert!(matches!(&ssid, Some(s) if s.is_hidden() && s.len() == 0));
    // ... while "not associated" is an entirely absent access point.
    let unassociated = w.active_access_point_from_path("/".to_owned());
    assert!(unassociated.is_none());
}

#[test]
fn ssid_octets_are_not_coerced() {
    let raw = vec![0xffu8, 0x00, 0x9f, 0x41];
    let s = Ssid::from_bytes(raw.clone());
    assert_eq!(s.octets, raw);
    assert!(!s.is_hidden());
    assert_eq!(s.len(), 4);
    let c = s.clone();
    assert_eq!(c.octets, raw);
}

#[test]
fn last_seen_negative_sentinel_is_absent() {
    assert_eq!(last_seen_from_wire(-1), None);
    assert_eq!(last_seen_from_wire(-5), None);
    assert_eq!(last_seen_from_wire(i32::MIN), None);
}

#[test]
fn last_seen_in_range_is_present() {
    assert_eq!(last_seen_from_wire(0), Some(0));
    assert_eq!(last_seen_from_wire(4711), Some(4711));
    assert_eq!(last_seen_from_wire(i32::MAX), Some(i32::MAX as u32));
}

#[test]
fn last_scan_negative_sentinel_is_absent() {
    assert_eq!(last_scan_from_wire(-1), None);
    assert_eq!(last_scan_from_wire(i64::MIN), None);
}

#[test]
fn last_scan_in_range_is_present() {
    assert_eq!(last_scan_from_wire(0), Some(0));
    assert_eq!(last_scan_from_wire(123456), Some(123456));
    assert_eq!(last_scan_from_wire(i64::MAX), Some(i64::MAX as u64));
}

#[test]
fn scan_options_scope() {
    let all = ScanOptions::all();
    assert!(all.ssids.is_none());
    let scoped = ScanOptions::with_ssids(vec![
        Ssid::from_bytes(b"home".to_vec()),
        Ssid::from_bytes(Vec::new()),
    ]);
    let list = scoped.ssids.unwrap();
    assert_eq!(list.len(), 2);
    assert_eq!(list[0].octets, b"home".to_vec());
    assert!(list[1].is_hidden());
}

#[test]
fn wireless_device_shares_object_path() {
    let w = wifi_device();
    assert_eq!(
        w.device().object_path(),
        "/org/freedesktop/NetworkManager/Devices/3"
    );
}
