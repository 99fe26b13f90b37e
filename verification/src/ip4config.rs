//! IP4 configuration handles.
//!
//! An IP4 configuration object is a read-only child of a device: addresses,
//! routes, DNS servers, search domains, gateway, and WINS servers. The
//! protocol exposes addresses and routes both as structured maps and as
//! legacy packed-integer tuples, and a client supports both in parallel;
//! every read is a live round trip through the handle's address.

use vstd::prelude::*;

use crate::bus::AddressModel;
use crate::bus::BusAddress;

verus! {

/// A handle on one remote IP4 configuration object.
#[derive(Debug)]
pub struct Ip4Config {
    /// The address of the remote configuration object.
    pub address: BusAddress,
}

impl View for Ip4Config {
    type V = AddressModel;

    open spec fn view(&self) -> AddressModel {
        self.address@
    }
}

impl Clone for Ip4Config {
    fn clone(&self) -> (r: Self)
        ensures
            r@ == self@,
    {
        Ip4Config { address: self.address.clone() }
    }
}

impl Ip4Config {
    /// A configuration handle for the remote object at `address`.
    pub fn new(address: BusAddress) -> (c: Ip4Config)
        ensures
            c@ == address@,
    {
        Ip4Config { address }
    }

    /// The object path identifying this configuration object on the bus.
    pub fn object_path(&self) -> (p: &String)
        ensures
            p@ == self@.path,
    {
        &self.address.path
    }
}

} // verus!
