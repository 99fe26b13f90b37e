//! The settings handle: the profile manager.
//!
//! The settings object is the root of the stored connection profiles. It
//! lists them as object paths and resolves one by UUID; each path becomes a
//! connection handle addressing the same service.

use vstd::prelude::*;

use crate::bus::AddressModel;
use crate::bus::BusAddress;
use crate::connection::Connection;

verus! {

/// A handle on the settings (profile manager) root object.
#[derive(Debug)]
pub struct Settings {
    /// The address of the remote settings object.
    pub address: BusAddress,
}

impl View for Settings {
    type V = AddressModel;

    open spec fn view(&self) -> AddressModel {
        self.address@
    }
}

impl Clone for Settings {
    fn clone(&self) -> (r: Self)
        ensures
            r@ == self@,
    {
        Settings { address: self.address.clone() }
    }
}

impl Settings {
    /// A settings handle for the remote object at `address`.
    pub fn new(address: BusAddress) -> (s: Settings)
        ensures
            s@ == address@,
    {
        Settings { address }
    }

    /// A connection handle for one object path the settings object
    /// reported, addressing the same service.
    pub fn connection_from_path(&self, path: String) -> (c: Connection)
        ensures
            c@ == (AddressModel { destination: self@.destination, path: path@ }),
    {
        Connection { address: self.address.with_path(path) }
    }

    /// Connection handles for a listing of object paths, in the order the
    /// settings object returned them.
    pub fn connections_from_paths(&self, paths: Vec<String>) -> (conns: Vec<Connection>)
        ensures
            conns@.len() == paths@.len(),
            forall|i: int|
                #![trigger conns@[i]]
                0 <= i < paths@.len() ==> conns@[i]@ == (AddressModel {
                    destination: self@.destination,
                    path: paths@[i]@,
                }),
    {
        let mut conns: Vec<Connection> = Vec::new();
        let mut idx: usize = 0;
        while idx < paths.len()
            invariant
                idx <= paths@.len(),
                conns@.len() == idx,
                forall|i: int|
                    #![trigger conns@[i]]
                    0 <= i < idx ==> conns@[i]@ == (AddressModel {
                        destination: self@.destination,
                        path: paths@[i]@,
                    }),
            decreases paths@.len() - idx,
        {
            let path = paths[idx].clone();
            conns.push(Connection { address: self.address.with_path(path) });
            idx = idx + 1;
        }
        conns
    }
}

} // verus!
