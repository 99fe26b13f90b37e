//! Connection profiles, settings bundles, and the applied connection.
//!
//! A connection (profile) handle addresses one stored configuration bundle.
//! Distinct from it is the applied connection: a value, not a handle — the
//! point-in-time snapshot of the settings a device currently runs, paired
//! with a version number that advances on every modification. The version
//! number makes read-then-reapply safe: a reapply quoting a version the
//! device has moved past must fail rather than silently overwrite a
//! concurrent change.
//!
//! Settings bundles are modeled as named groups of keyed entries; secrets
//! requests are scoped to one group by name, and the empty scope means every
//! group.

use vstd::prelude::*;

use crate::bus::AddressModel;
use crate::bus::BusAddress;
use crate::errors::Error;

verus! {

/// A handle on one stored connection profile.
#[derive(Debug)]
pub struct Connection {
    /// The address of the remote profile object.
    pub address: BusAddress,
}

impl View for Connection {
    type V = AddressModel;

    open spec fn view(&self) -> AddressModel {
        self.address@
    }
}

impl Clone for Connection {
    fn clone(&self) -> (r: Self)
        ensures
            r@ == self@,
    {
        Connection { address: self.address.clone() }
    }
}

impl Connection {
    /// A profile handle for the remote object at `address`.
    pub fn new(address: BusAddress) -> (c: Connection)
        ensures
            c@ == address@,
    {
        Connection { address }
    }

    /// The object path identifying this profile on the bus.
    pub fn object_path(&self) -> (p: &String)
        ensures
            p@ == self@.path,
    {
        &self.address.path
    }
}

/// Derive whether a profile's in-memory state matches its on-disk state from
/// the remote "unsaved" flag: always the flag's logical negation, for both
/// truth values.
pub fn saved_from_unsaved(unsaved: bool) -> (saved: bool)
    ensures
        saved == !unsaved,
{
    !unsaved
}

/// The mathematical value of a [`SettingEntry`].
pub ghost struct EntryModel {
    /// The entry's key inside its group.
    pub key: Seq<char>,
    /// The entry's value, as the serialized wire octets of the variant.
    pub value: Seq<u8>,
}

/// The mathematical value of a [`SettingsGroup`].
pub ghost struct GroupModel {
    /// The group's name.
    pub name: Seq<char>,
    /// The group's entries.
    pub entries: Seq<EntryModel>,
}

/// The mathematical value of an [`AppliedConnection`].
pub ghost struct AppliedModel {
    /// The settings the device currently runs.
    pub settings: Seq<GroupModel>,
    /// The version number, advancing on every modification.
    pub version: int,
}

/// One keyed value inside a settings group.
#[derive(Debug)]
pub struct SettingEntry {
    /// The entry's key inside its group.
    pub key: String,
    /// The entry's value, as the serialized wire octets of the variant.
    pub value: Vec<u8>,
}

impl View for SettingEntry {
    type V = EntryModel;

    open spec fn view(&self) -> EntryModel {
        EntryModel { key: self.key@, value: self.value@ }
    }
}

impl Clone for SettingEntry {
    fn clone(&self) -> (r: Self)
        ensures
            r@ == self@,
    {
        let key = self.key.clone();
        let value = self.value.clone();
        proof {
            assert(value@ =~= self.value@);
        }
        SettingEntry { key, value }
    }
}

/// One named group of a settings bundle.
#[derive(Debug)]
pub struct SettingsGroup {
    /// The group's name, such as the name of the setting it configures.
    pub name: String,
    /// The group's entries.
    pub entries: Vec<SettingEntry>,
}

/// The models of a sequence of entries.
pub open spec fn entry_views(entries: Seq<SettingEntry>) -> Seq<EntryModel> {
    entries.map_values(|e: SettingEntry| e@)
}

/// The models of a sequence of groups.
pub open spec fn group_views(groups: Seq<SettingsGroup>) -> Seq<GroupModel> {
    groups.map_values(|g: SettingsGroup| g@)
}

impl View for SettingsGroup {
    type V = GroupModel;

    open spec fn view(&self) -> GroupModel {
        GroupModel { name: self.name@, entries: entry_views(self.entries@) }
    }
}

impl Clone for SettingsGroup {
    fn clone(&self) -> (r: Self)
        ensures
            r@ == self@,
    {
        let name = self.name.clone();
        let mut entries: Vec<SettingEntry> = Vec::new();
        let mut idx: usize = 0;
        while idx < self.entries.len()
            invariant
                idx <= self.entries@.len(),
                entries@.len() == idx,
                forall|i: int|
                    #![trigger entries@[i]]
                    0 <= i < idx ==> entries@[i]@ == self.entries@[i]@,
            decreases self.entries@.len() - idx,
        {
            entries.push(self.entries[idx].clone());
            idx = idx + 1;
        }
        proof {
            assert(entry_views(entries@) =~= entry_views(self.entries@));
        }
        SettingsGroup { name, entries }
    }
}

/// Clone a settings bundle, group for group.
pub fn clone_groups(groups: &Vec<SettingsGroup>) -> (r: Vec<SettingsGroup>)
    ensures
        group_views(r@) == group_views(groups@),
{
    let mut out: Vec<SettingsGroup> = Vec::new();
    let mut idx: usize = 0;
    while idx < groups.len()
        invariant
            idx <= groups@.len(),
            out@.len() == idx,
            forall|i: int| #![trigger out@[i]] 0 <= i < idx ==> out@[i]@ == groups@[i]@,
        decreases groups@.len() - idx,
    {
        out.push(groups[idx].clone());
        idx = idx + 1;
    }
    proof {
        assert(group_views(out@) =~= group_views(groups@));
    }
    out
}

/// Which groups a secrets request with the given scope selects: the empty
/// scope selects every group, any other scope exactly the groups of that
/// name, in their original order.
pub open spec fn spec_select_secrets(groups: Seq<GroupModel>, scope: Seq<char>) -> Seq<GroupModel>
    decreases groups.len(),
{
    if groups.len() == 0 {
        Seq::empty()
    } else {
        let rest = spec_select_secrets(groups.drop_last(), scope);
        if scope.len() == 0 || groups.last().name == scope {
            rest.push(groups.last())
        } else {
            rest
        }
    }
}

/// The empty scope means every settings group: selecting with it returns the
/// bundle unchanged, so a request for all secrets and a request scoped to
/// the empty name behave identically.
pub proof fn lemma_empty_scope_selects_all(groups: Seq<GroupModel>)
    ensures
        spec_select_secrets(groups, Seq::<char>::empty()) == groups,
    decreases groups.len(),
{
    if groups.len() == 0 {
        assert(spec_select_secrets(groups, Seq::<char>::empty()) =~= groups);
    } else {
        lemma_empty_scope_selects_all(groups.drop_last());
        assert(spec_select_secrets(groups, Seq::<char>::empty()) =~= groups);
    }
}

/// Select the groups of a secrets reply that a scope asks for: every group
/// for the empty scope, else the groups whose name equals the scope.
pub fn select_secrets(groups: &Vec<SettingsGroup>, scope: &str) -> (r: Vec<SettingsGroup>)
    ensures
        group_views(r@) == spec_select_secrets(group_views(groups@), scope@),
{
    let scope_owned: String = scope.to_owned();
    let mut out: Vec<SettingsGroup> = Vec::new();
    let mut idx: usize = 0;
    while idx < groups.len()
        invariant
            idx <= groups@.len(),
            scope_owned@ == scope@,
            group_views(out@) == spec_select_secrets(
                group_views(groups@).take(idx as int),
                scope@,
            ),
        decreases groups@.len() - idx,
    {
        let ghost prefix = group_views(groups@).take(idx as int);
        let ghost extended = group_views(groups@).take(idx + 1 as int);
        proof {
            assert(extended.drop_last() =~= prefix);
            assert(extended.last() == groups@[idx as int]@);
        }
        let keep = scope_owned.as_str().is_empty() || groups[idx].name == scope_owned;
        if keep {
            out.push(groups[idx].clone());
            proof {
                assert(group_views(out@) =~= spec_select_secrets(extended, scope@));
            }
        } else {
            proof {
                assert(group_views(out@) =~= spec_select_secrets(extended, scope@));
            }
        }
        idx = idx + 1;
    }
    proof {
        assert(group_views(groups@).take(groups@.len() as int) =~= group_views(groups@));
    }
    out
}

/// Select every secrets group: behaves exactly as selecting with the empty
/// scope, returning the bundle unchanged.
pub fn select_all_secrets(groups: &Vec<SettingsGroup>) -> (r: Vec<SettingsGroup>)
    ensures
        group_views(r@) == group_views(groups@),
        group_views(r@) == spec_select_secrets(group_views(groups@), Seq::<char>::empty()),
{
    let r = select_secrets(groups, "");
    proof {
        reveal_strlit("");
        assert(""@ =~= Seq::<char>::empty());
        lemma_empty_scope_selects_all(group_views(groups@));
    }
    r
}

/// The applied connection of a device: the settings snapshot it currently
/// runs and the version number guarding concurrent modification.
///
/// This is a value, not a handle: it has no object path and does not change
/// when the device does. [`AppliedConnection::reapply`] is the service's
/// documented update rule, as a function of this state.
#[derive(Debug)]
pub struct AppliedConnection {
    /// The settings the device currently runs.
    pub settings: Vec<SettingsGroup>,
    /// The version number of the applied connection, advancing on every
    /// modification.
    pub version: u64,
}

impl View for AppliedConnection {
    type V = AppliedModel;

    open spec fn view(&self) -> AppliedModel {
        AppliedModel { settings: group_views(self.settings@), version: self.version as int }
    }
}

impl Clone for AppliedConnection {
    fn clone(&self) -> (r: Self)
        ensures
            r@ == self@,
    {
        AppliedConnection { settings: clone_groups(&self.settings), version: self.version }
    }
}

impl AppliedConnection {
    /// An applied connection holding the given settings at the given
    /// version.
    pub fn new(settings: Vec<SettingsGroup>, version: u64) -> (a: AppliedConnection)
        ensures
            a@ == (AppliedModel { settings: group_views(settings@), version: version as int }),
    {
        AppliedConnection { settings, version }
    }

    /// Update the applied settings under the optimistic-concurrency rule.
    ///
    /// The caller quotes the version it last read. If the applied connection
    /// has been modified since — its version is no longer the quoted one —
    /// the update fails and the state is left untouched; quoting the current
    /// version succeeds, replaces the settings, and advances the version.
    pub fn reapply(&mut self, settings: Vec<SettingsGroup>, version_id: u64) -> (r: Result<
        (),
        Error,
    >)
        requires
            old(self).version < u64::MAX,
        ensures
            version_id == old(self)@.version ==> (r is Ok && final(self)@ == (AppliedModel {
                settings: group_views(settings@),
                version: old(self)@.version + 1,
            })),
            version_id != old(self)@.version ==> ((r matches Err(e) && e is Transport)
                && final(self)@ == old(self)@),
    {
        if version_id == self.version {
            self.settings = settings;
            self.version = self.version + 1;
            Ok(())
        } else {
            Err(
                Error::Transport(
                    "the applied connection was modified after the version id was read".to_owned(),
                ),
            )
        }
    }
}

} // verus!
