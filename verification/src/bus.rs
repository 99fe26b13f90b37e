//! Bus addresses and scoped proxy resolution.
//!
//! Every remote object a handle refers to is identified by a destination
//! (the bus-level service name hosting the object) and an object path (the
//! hierarchical identifier of the object inside that service). A handle
//! pairs such an address with a shared bus connection held by the caller;
//! each call resolves a proxy for exactly that pair, so a deleted or moved
//! remote object is an error on next use, never a stale handle silently
//! succeeding.
//!
//! A remote interface may declare no default destination. Resolving an
//! address whose destination is unset fails with
//! [`Error::MissingDestination`], which is deliberately distinct from a call
//! that reached the remote object and failed there.

use vstd::prelude::*;

use crate::errors::Error;

verus! {

/// The mathematical value of a [`BusAddress`].
pub ghost struct AddressModel {
    /// The service name, if one is set.
    pub destination: Option<Seq<char>>,
    /// The object path.
    pub path: Seq<char>,
}

/// The mathematical value of a [`ResolvedAddress`].
pub ghost struct ResolvedModel {
    /// The service name.
    pub destination: Seq<char>,
    /// The object path.
    pub path: Seq<char>,
}

/// Identifies a remote object: a destination service name (possibly unset)
/// and an object path.
#[derive(Debug)]
pub struct BusAddress {
    /// The bus-level service name hosting the object, when known.
    pub destination: Option<String>,
    /// The object path of the remote object.
    pub path: String,
}

impl View for BusAddress {
    type V = AddressModel;

    open spec fn view(&self) -> AddressModel {
        AddressModel {
            destination: match self.destination {
                Option::Some(d) => Option::Some(d@),
                Option::None => Option::None,
            },
            path: self.path@,
        }
    }
}

impl Clone for BusAddress {
    fn clone(&self) -> (r: Self)
        ensures
            r@ == self@,
    {
        BusAddress {
            destination: match &self.destination {
                Option::Some(d) => Option::Some(d.clone()),
                Option::None => Option::None,
            },
            path: self.path.clone(),
        }
    }
}

impl BusAddress {
    /// Address a remote object by destination and path.
    pub fn new(destination: String, path: String) -> (a: BusAddress)
        ensures
            a@ == (AddressModel { destination: Option::Some(destination@), path: path@ }),
    {
        BusAddress { destination: Option::Some(destination), path }
    }

    /// Derive a sibling address with the same destination but a different
    /// path, for a child object of the same service.
    pub fn with_path(&self, path: String) -> (a: BusAddress)
        ensures
            a@ == (AddressModel { destination: self@.destination, path: path@ }),
    {
        BusAddress { destination: self.destination.clone(), path }
    }

    /// Derive an address with a different destination and path, for an
    /// object in another service's tree.
    pub fn with_destination_and_path(&self, destination: String, path: String) -> (a: BusAddress)
        ensures
            a@ == (AddressModel { destination: Option::Some(destination@), path: path@ }),
    {
        BusAddress { destination: Option::Some(destination), path }
    }

    /// Resolve the scoped proxy target for one call.
    ///
    /// Succeeds exactly when a destination is set; an unset destination is
    /// [`Error::MissingDestination`], never a guessed service name.
    pub fn resolve(&self) -> (r: Result<ResolvedAddress, Error>)
        ensures
            match self@.destination {
                Option::Some(d) => r matches Ok(res) && res@ == (ResolvedModel {
                    destination: d,
                    path: self@.path,
                }),
                Option::None => r matches Err(e) && e is MissingDestination,
            },
    {
        match &self.destination {
            Option::Some(d) => Ok(ResolvedAddress { destination: d.clone(), path: self.path.clone() }),
            Option::None => Err(Error::MissingDestination),
        }
    }
}

/// A proxy target bound to exactly one (destination, path) pair, valid for
/// the duration of one call.
#[derive(Debug)]
pub struct ResolvedAddress {
    /// The bus-level service name hosting the object.
    pub destination: String,
    /// The object path of the remote object.
    pub path: String,
}

impl View for ResolvedAddress {
    type V = ResolvedModel;

    open spec fn view(&self) -> ResolvedModel {
        ResolvedModel { destination: self.destination@, path: self.path@ }
    }
}

/// The well-known service name of the NetworkManager daemon.
pub fn nm_destination() -> (d: &'static str)
    ensures
        d@ == "org.freedesktop.NetworkManager"@,
{
    "org.freedesktop.NetworkManager"
}

/// The well-known object path of the manager root object.
pub fn nm_root_path() -> (p: &'static str)
    ensures
        p@ == "/org/freedesktop/NetworkManager"@,
{
    "/org/freedesktop/NetworkManager"
}

/// The well-known object path of the settings (profile manager) root object.
pub fn nm_settings_path() -> (p: &'static str)
    ensures
        p@ == "/org/freedesktop/NetworkManager/Settings"@,
{
    "/org/freedesktop/NetworkManager/Settings"
}

} // verus!
