use networkmanager::bus::nm_destination;
use networkmanager::bus::nm_root_path;
use networkmanager::bus::nm_settings_path;
use networkmanager::bus::BusAddress;
use networkmanager::device::cast_to_wireless;
use networkmanager::device::optional_when_nonempty;
use networkmanager::device::Device;
use networkmanager::Error;
use networkmanager::NetworkManager;

#[test]
fn well_known_constants() {
    assert_eq!(nm_destination(), "org.freedesktop.NetworkManager");
    assert_eq!(nm_root_path(), "/org/freedesktop/NetworkManager");
    assert_eq!(nm_settings_path(), "/org/freedesktop/NetworkManager/Settings");
}

#[test]
fn bus_address_derivation() {
    let a = BusAddress::new("org.example.Svc".to_owned(), "/org/example/Root".to_owned());
    assert_eq!(a.destination.as_deref(), Some("org.example.Svc"));
    assert_eq!(a.path, "/org/example/Root");

    let child = a.with_path("/org/example/Root/Child".to_owned());
    assert_eq!(child.destination.as_deref(), Some("org.example.Svc"));
    assert_eq!(child.path, "/org/example/Root/Child");

    let cross = a.with_destination_and_path("org.other.Svc".to_owned(), "/org/other".to_owned());
    assert_eq!(cross.destination.as_deref(), Some("org.other.Svc"));
    assert_eq!(cross.path, "/org/other");
}

#[test]
fn resolve_with_destination_succeeds() {
    let a = BusAddress::new("org.example.Svc".to_owned(), "/org/example/Root".to_owned());
    let r = a.resolve().unwrap();
    assert_eq!(r.destination, "org.example.Svc");
    assert_eq!(r.path, "/org/example/Root");
}

#[test]
fn resolve_without_destination_is_missing_destination() {
    let a = BusAddress { destination: None, path: "/org/example/Root".to_owned() };
    assert!(matches!(a.resolve(), Err(Error::MissingDestination)));
}

#[test]
fn manager_binds_well_known_address() {
    let m = NetworkManager::new();
    assert_eq!(m.address.destination.as_deref(), Some("org.freedesktop.NetworkManager"));
    assert_eq!(m.address.path, "/org/freedesktop/NetworkManager");
}

#[test]
fn settings_is_sibling_in_same_service() {
    let m = NetworkManager::new();
    let s = m.settings();
    assert_eq!(s.address.destination, m.address.destination);
    assert_eq!(s.address.path, "/org/freedesktop/NetworkManager/Settings");
}

#[test]
fn devices_from_paths_keeps_order_and_service() {
    let m = NetworkManager::new();
    let paths = vec![
        "/org/freedesktop/NetworkManager/Devices/1".to_owned(),
        "/org/freedesktop/NetworkManager/Devices/3".to_owned(),
        "/org/freedesktop/NetworkManager/Devices/2".to_owned(),
    ];
    let devs = m.devices_from_paths(paths.clone());
    assert_eq!(devs.len(), 3);
    for (d, p) in devs.iter().zip(paths.iter()) {
        assert_eq!(d.object_path(), p);
        assert_eq!(d.address.destination, m.address.destination);
    }
}

#[test]
fn all_devices_cover_realized_devices() {
    let m = NetworkManager::new();
    let realized = vec![
        "/org/freedesktop/NetworkManager/Devices/1".to_owned(),
        "/org/freedesktop/NetworkManager/Devices/2".to_owned(),
    ];
    // The full listing adds a placeholder the realized listing lacks.
    let all = vec![
        "/org/freedesktop/NetworkManager/Devices/1".to_owned(),
        "/org/freedesktop/NetworkManager/Devices/2".to_owned(),
        "/org/freedesktop/NetworkManager/Devices/9".to_owned(),
    ];
    let realized_devs = m.devices_from_paths(realized);
    let all_devs = m.devices_from_paths(all);
    for d in realized_devs.iter() {
        assert!(all_devs.iter().any(|a| a.object_path() == d.object_path()));
    }
    assert!(all_devs.iter().any(|a| a.object_path().ends_with("/9")));
    assert!(!realized_devs.iter().any(|d| d.object_path().ends_with("/9")));
}

#[test]
fn cast_present_exactly_for_matching_kind() {
    let m = NetworkManager::new();
    let d = m.device_from_path("/org/freedesktop/NetworkManager/Devices/5".to_owned());
    // The remote reports the Wi-Fi type code: the cast is present and
    // addresses the same object.
    let w = cast_to_wireless(&d, 2).unwrap().unwrap();
    assert_eq!(w.device().object_path(), d.object_path());
    // Any other known code: absent, not an error.
    assert!(cast_to_wireless(&d, 1).unwrap().is_none());
    assert!(cast_to_wireless(&d, 14).unwrap().is_none());
    // A code outside the enumeration: an error, not a guess.
    assert!(matches!(cast_to_wireless(&d, 999), Err(Error::UnsupportedType)));
}

#[test]
fn ip4_config_handle_addresses_reported_path() {
    let m = NetworkManager::new();
    let d = m.device_from_path("/org/freedesktop/NetworkManager/Devices/5".to_owned());
    let c = d.ip4_config_from_path("/org/freedesktop/NetworkManager/IP4Config/7".to_owned());
    assert_eq!(c.object_path(), "/org/freedesktop/NetworkManager/IP4Config/7");
    assert_eq!(c.address.destination, d.address.destination);
}

#[test]
fn optional_string_property_reads_empty_as_absent() {
    assert!(optional_when_nonempty(String::new()).is_none());
    assert_eq!(optional_when_nonempty("pci-0000:02:00.0".to_owned()).as_deref(), Some("pci-0000:02:00.0"));
}

#[test]
fn handle_clones_address_same_object() {
    let d = Device::new(BusAddress::new(
        "org.freedesktop.NetworkManager".to_owned(),
        "/org/freedesktop/NetworkManager/Devices/1".to_owned(),
    ));
    let d2 = d.clone();
    assert_eq!(d.object_path(), d2.object_path());
    assert_eq!(d.address.destination, d2.address.destination);
}
