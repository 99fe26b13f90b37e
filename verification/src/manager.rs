//! The manager handle: the root of device and settings lookups.
//!
//! One manager handle exists per bus connection, bound to the service's
//! well-known name and root path. Device enumeration comes in two shapes:
//! the realized devices, and all devices including placeholders that the
//! service could create on demand. Both return object paths in the service's
//! order, and every realized device also appears in the full listing.

use vstd::prelude::*;

use crate::bus::AddressModel;
use crate::bus::BusAddress;
use crate::bus::nm_destination;
use crate::bus::nm_root_path;
use crate::bus::nm_settings_path;
use crate::device::Device;
use crate::device::devices_from_paths;
use crate::settings::Settings;

verus! {

/// A handle on the manager root object of the service.
#[derive(Debug)]
pub struct NetworkManager {
    /// The address of the remote manager object.
    pub address: BusAddress,
}

impl View for NetworkManager {
    type V = AddressModel;

    open spec fn view(&self) -> AddressModel {
        self.address@
    }
}

impl Clone for NetworkManager {
    fn clone(&self) -> (r: Self)
        ensures
            r@ == self@,
    {
        NetworkManager { address: self.address.clone() }
    }
}

impl NetworkManager {
    /// A manager handle bound to the service's well-known name and root
    /// path.
    pub fn new() -> (m: NetworkManager)
        ensures
            m@ == (AddressModel {
                destination: Option::Some("org.freedesktop.NetworkManager"@),
                path: "/org/freedesktop/NetworkManager"@,
            }),
    {
        NetworkManager {
            address: BusAddress::new(nm_destination().to_owned(), nm_root_path().to_owned()),
        }
    }

    /// The settings (profile manager) handle: a sibling object in the same
    /// service's tree, at its own well-known path.
    pub fn settings(&self) -> (s: Settings)
        ensures
            s@ == (AddressModel {
                destination: self@.destination,
                path: "/org/freedesktop/NetworkManager/Settings"@,
            }),
    {
        Settings { address: self.address.with_path(nm_settings_path().to_owned()) }
    }

    /// A device handle for one object path the manager reported, addressing
    /// the same service.
    pub fn device_from_path(&self, path: String) -> (d: Device)
        ensures
            d@ == (AddressModel { destination: self@.destination, path: path@ }),
    {
        Device { address: self.address.with_path(path) }
    }

    /// Device handles for a listing of object paths, in the order the
    /// manager returned them.
    pub fn devices_from_paths(&self, paths: Vec<String>) -> (devs: Vec<Device>)
        ensures
            devs@.len() == paths@.len(),
            forall|i: int|
                #![trigger devs@[i]]
                0 <= i < paths@.len() ==> devs@[i]@ == (AddressModel {
                    destination: self@.destination,
                    path: paths@[i]@,
                }),
    {
        devices_from_paths(&self.address, paths)
    }
}

/// Whether some handle in `all` addresses the same remote object as `d`.
pub open spec fn device_covered(d: Device, all: Seq<Device>) -> bool {
    exists|j: int| 0 <= j < all.len() && d@ == (#[trigger] all[j])@
}

/// The full device listing covers the realized one.
///
/// The realized listing contains the devices that exist; the full listing
/// adds placeholders and drops nothing, so every path of the realized
/// listing also appears in it. Whenever the two path listings stand in that
/// relation, every device handle built from the realized listing has a
/// counterpart with the same address among the handles built from the full
/// listing.
pub proof fn lemma_realized_devices_covered(
    origin: AddressModel,
    realized_paths: Seq<Seq<char>>,
    all_paths: Seq<Seq<char>>,
    realized: Seq<Device>,
    all: Seq<Device>,
)
    requires
        realized.len() == realized_paths.len(),
        forall|i: int|
            #![trigger realized[i]]
            0 <= i < realized.len() ==> realized[i]@ == (AddressModel {
                destination: origin.destination,
                path: realized_paths[i],
            }),
        all.len() == all_paths.len(),
        forall|j: int|
            #![trigger all[j]]
            0 <= j < all.len() ==> all[j]@ == (AddressModel {
                destination: origin.destination,
                path: all_paths[j],
            }),
        forall|i: int| 0 <= i < realized_paths.len() ==> all_paths.contains(#[trigger] realized_paths[i]),
    ensures
        forall|i: int|
            0 <= i < realized.len() ==> device_covered(#[trigger] realized[i], all),
{
    assert forall|i: int| 0 <= i < realized.len() implies device_covered(
        #[trigger] realized[i],
        all,
    ) by {
        assert(all_paths.contains(realized_paths[i]));
        let j = choose|j: int| 0 <= j < all_paths.len() && all_paths[j] == realized_paths[i];
        assert(0 <= j < all.len() && realized[i]@ == all[j]@);
    }
}

} // verus!
