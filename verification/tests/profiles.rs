use networkmanager::connection::saved_from_unsaved;
use networkmanager::connection::select_all_secrets;
use networkmanager::connection::select_secrets;
use networkmanager::connection::AppliedConnection;
use networkmanager::connection::SettingEntry;
use networkmanager::connection::SettingsGroup;
use networkmanager::Error;
use networkmanager::NetworkManager;

fn group(name: &str, key: &str, value: &[u8]) -> SettingsGroup {
    SettingsGroup {
        name: name.to_owned(),
        entries: vec![SettingEntry { key: key.to_owned(), value: value.to_vec() }],
    }
}

fn names(groups: &[SettingsGroup]) -> Vec<String> {
    groups.iter().map(|g| g.name.clone()).collect()
}

#[test]
fn saved_is_negation_of_unsaved() {
    assert_eq!(saved_from_unsaved(true), false);
    assert_eq!(saved_from_unsaved(false), true);
}

#[test]
fn empty_scope_selects_every_group() {
    let groups = vec![
        group("connection", "id", b"home"),
        group("802-11-wireless-security", "psk", b"example-psk"),
        group("ipv4", "method", b"auto"),
    ];
    let all = select_secrets(&groups, "");
    assert_eq!(names(&all), names(&groups));
    assert_eq!(all[1].entries[0].key, "psk");
    assert_eq!(all[1].entries[0].value, b"example-psk".to_vec());
}

#[test]
fn no_scope_and_empty_scope_behave_identically() {
    let groups = vec![
        group("connection", "id", b"home"),
        group("802-11-wireless-security", "psk", b"example-psk"),
    ];
    let via_empty_scope = select_secrets(&groups, "");
    let via_all = select_all_secrets(&groups);
    assert_eq!(names(&via_empty_scope), names(&via_all));
    for (a, b) in via_empty_scope.iter().zip(via_all.iter()) {
        assert_eq!(a.entries.len(), b.entries.len());
        for (x, y) in a.entries.iter().zip(b.entries.iter()) {
            assert_eq!(x.key, y.key);
            assert_eq!(x.value, y.value);
        }
    }
}

#[test]
fn named_scope_selects_matching_groups_in_order() {
    let groups = vec![
        group("connection", "id", b"home"),
        group("ipv4", "method", b"auto"),
        group("ipv4", "dns", b"192.0.2.53"),
    ];
    let scoped = select_secrets(&groups, "ipv4");
    assert_eq!(names(&scoped), vec!["ipv4".to_owned(), "ipv4".to_owned()]);
    assert_eq!(scoped[0].entries[0].key, "method");
    assert_eq!(scoped[1].entries[0].key, "dns");
}

#[test]
fn missing_scope_selects_nothing() {
    let groups = vec![group("connection", "id", b"home")];
    let scoped = select_secrets(&groups, "802-1x");
    assert!(scoped.is_empty());
}

#[test]
fn reapply_with_current_version_succeeds_and_advances() {
    let mut applied = AppliedConnection::new(vec![group("ipv4", "method", b"auto")], 4);
    let r = applied.reapply(vec![group("ipv4", "method", b"manual")], 4);
    assert!(r.is_ok());
    assert_eq!(applied.version, 5);
    assert_eq!(applied.settings[0].entries[0].value, b"manual".to_vec());
}

#[test]
fn reapply_with_stale_version_fails_without_modifying_state() {
    let mut applied = AppliedConnection::new(vec![group("ipv4", "method", b"auto")], 5);
    let r = applied.reapply(vec![group("ipv4", "method", b"manual")], 4);
    assert!(matches!(r, Err(Error::Transport(_))));
    assert_eq!(applied.version, 5);
    assert_eq!(applied.settings[0].entries[0].value, b"auto".to_vec());
}

#[test]
fn reapply_quoting_a_consumed_version_fails() {
    // Read-modify-write from two callers quoting the same version: the
    // first succeeds and advances the version, the second must fail.
    let mut applied = AppliedConnection::new(vec![group("ipv4", "method", b"auto")], 7);
    assert!(applied.reapply(vec![group("ipv4", "method", b"manual")], 7).is_ok());
    let second = applied.reapply(vec![group("ipv4", "method", b"disabled")], 7);
    assert!(matches!(second, Err(Error::Transport(_))));
    assert_eq!(applied.version, 8);
    assert_eq!(applied.settings[0].entries[0].value, b"manual".to_vec());
}

#[test]
fn applied_connection_clone_snapshots_state() {
    let applied = AppliedConnection::new(vec![group("connection", "id", b"home")], 2);
    let snap = applied.clone();
    assert_eq!(snap.version, 2);
    assert_eq!(snap.settings[0].name, "connection");
    assert_eq!(snap.settings[0].entries[0].value, b"home".to_vec());
}

#[test]
fn connections_from_paths_keep_order_and_service() {
    let m = NetworkManager::new();
    let s = m.settings();
    let paths = vec![
        "/org/freedesktop/NetworkManager/Settings/1".to_owned(),
        "/org/freedesktop/NetworkManager/Settings/4".to_owned(),
    ];
    let conns = s.connections_from_paths(paths.clone());
    assert_eq!(conns.len(), 2);
    for (c, p) in conns.iter().zip(paths.iter()) {
        assert_eq!(c.object_path(), p);
        assert_eq!(c.address.destination, s.address.destination);
    }
    let by_uuid = s.connection_from_path("/org/freedesktop/NetworkManager/Settings/9".to_owned());
    assert_eq!(by_uuid.object_path(), "/org/freedesktop/NetworkManager/Settings/9");
}

#[test]
fn error_kinds_have_messages() {
    assert_eq!(Error::UnsupportedMethod.message(), "unsupported method");
    assert_eq!(Error::UnsupportedDevice.message(), "unsupported device");
    assert_eq!(Error::UnsupportedType.message(), "unsupported type");
    assert_eq!(Error::MissingDestination.message(), "missing destination");
    assert_eq!(Error::Transport("timed out".to_owned()).message(), "timed out");
}
