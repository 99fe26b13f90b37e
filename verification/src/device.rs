//! Device handles, kind classification, and specialization.
//!
//! A device handle addresses one remote device object. It owns no local
//! state: every property is a live round trip, and the handle stays valid
//! exactly as long as the remote object exists. The remote reports the
//! device's immutable kind as a numeric code; classification maps that code
//! through the closed table of [`crate::types::DeviceType`], and casting
//! specializes a handle when (and only when) the code matches the requested
//! kind. Querying the wrong cast is an expected, benign occurrence, so a
//! mismatch is an absent value, never an error.

use vstd::prelude::*;

use crate::bus::AddressModel;
use crate::bus::BusAddress;
use crate::errors::Error;
use crate::ip4config::Ip4Config;
use crate::types::DeviceState;
use crate::types::DeviceStateReason;
use crate::types::DeviceType;
use crate::types::device_state_from_code;
use crate::types::device_type_from_code;
use crate::types::spec_device_state_from_code;
use crate::types::spec_device_type_from_code;
use crate::types::spec_state_reason_from_code;
use crate::types::state_reason_from_code;
use crate::wireless::WirelessDevice;

verus! {

/// A handle on one remote network device.
#[derive(Debug)]
pub struct Device {
    /// The address of the remote device object.
    pub address: BusAddress,
}

impl View for Device {
    type V = AddressModel;

    open spec fn view(&self) -> AddressModel {
        self.address@
    }
}

impl Clone for Device {
    fn clone(&self) -> (r: Self)
        ensures
            r@ == self@,
    {
        Device { address: self.address.clone() }
    }
}

impl Device {
    /// A device handle for the remote object at `address`.
    pub fn new(address: BusAddress) -> (d: Device)
        ensures
            d@ == address@,
    {
        Device { address }
    }

    /// The object path identifying this device on the bus. Identity is by
    /// object path: specialized handles for the same device share it.
    pub fn object_path(&self) -> (p: &String)
        ensures
            p@ == self@.path,
    {
        &self.address.path
    }

    /// The handle of this device's IP4 configuration object, from the path
    /// the remote reported for it.
    pub fn ip4_config_from_path(&self, path: String) -> (c: Ip4Config)
        ensures
            c@ == (AddressModel { destination: self@.destination, path: path@ }),
    {
        Ip4Config { address: self.address.with_path(path) }
    }
}

/// The specialization a device handle can be classified into.
///
/// Codes the enumeration knows but this client does not specialize fall into
/// the distinct unsupported kind; codes outside the enumeration are not a
/// kind at all but an [`Error::UnsupportedType`].
#[derive(Clone, Copy, Debug, PartialEq, Eq, Structural)]
pub enum DeviceKind {
    /// An 802.11 Wi-Fi device.
    WiFi,
    /// A wired ethernet device.
    Ethernet,
    /// A device without a more specific model.
    Generic,
    /// A bridge master interface.
    Bridge,
    /// A virtual ethernet pair interface.
    Veth,
    /// A device kind this client does not specialize.
    UnsupportedDevice,
}

/// The kind each known device type is specialized into.
pub open spec fn spec_device_kind(t: DeviceType) -> DeviceKind {
    match t {
        DeviceType::Wifi => DeviceKind::WiFi,
        DeviceType::Ethernet => DeviceKind::Ethernet,
        DeviceType::Generic => DeviceKind::Generic,
        DeviceType::Bridge => DeviceKind::Bridge,
        DeviceType::Veth => DeviceKind::Veth,
        _ => DeviceKind::UnsupportedDevice,
    }
}

/// Classify a wire device-type code into the specialization it selects.
///
/// A known code always yields a kind (the unsupported kind when this client
/// has no specialized facade for it); a code outside the enumeration is the
/// unsupported-type error, never a guessed kind.
pub fn classify_device_kind(code: u32) -> (r: Result<DeviceKind, Error>)
    ensures
        r == (match spec_device_type_from_code(code) {
            Option::Some(t) => Result::<DeviceKind, Error>::Ok(spec_device_kind(t)),
            Option::None => Result::<DeviceKind, Error>::Err(Error::UnsupportedType),
        }),
{
    match device_type_from_code(code) {
        Ok(t) => match t {
            DeviceType::Wifi => Ok(DeviceKind::WiFi),
            DeviceType::Ethernet => Ok(DeviceKind::Ethernet),
            DeviceType::Generic => Ok(DeviceKind::Generic),
            DeviceType::Bridge => Ok(DeviceKind::Bridge),
            DeviceType::Veth => Ok(DeviceKind::Veth),
            _ => Ok(DeviceKind::UnsupportedDevice),
        },
        Err(e) => Err(e),
    }
}

/// Cast a device handle to a wireless handle, given the device-type code the
/// remote reported for it.
///
/// The cast is present exactly when the code denotes the Wi-Fi kind, and the
/// specialized handle addresses the same remote object. Any other known code
/// is an absent value, not an error: asking for the wrong kind is expected.
/// A code outside the enumeration is the unsupported-type error.
pub fn cast_to_wireless(device: &Device, code: u32) -> (r: Result<Option<WirelessDevice>, Error>)
    ensures
        spec_device_type_from_code(code) == Option::Some(DeviceType::Wifi) ==> (r matches Ok(o)
            && o matches Some(w) && w@ == device@),
        r matches Ok(Option::Some(w)) ==> spec_device_type_from_code(code) == Option::Some(
            DeviceType::Wifi,
        ),
        (spec_device_type_from_code(code) matches Option::Some(t) && t != DeviceType::Wifi)
            ==> r == Result::<Option<WirelessDevice>, Error>::Ok(Option::None),
        spec_device_type_from_code(code) is None ==> r == Result::<
            Option<WirelessDevice>,
            Error,
        >::Err(Error::UnsupportedType),
{
    match device_type_from_code(code) {
        Ok(DeviceType::Wifi) => Ok(Some(WirelessDevice { parent: device.clone() })),
        Ok(_) => Ok(None),
        Err(e) => Err(e),
    }
}

/// Decode the combined state-and-reason reply of a device.
///
/// The remote reports the pair in one read so no second round trip can race
/// with a state change. Both codes must be known; either one outside its
/// enumeration is the unsupported-type error.
pub fn state_with_reason_from_codes(state_code: u32, reason_code: u32) -> (r: Result<
    (DeviceState, DeviceStateReason),
    Error,
>)
    ensures
        r == (match (
            spec_device_state_from_code(state_code),
            spec_state_reason_from_code(reason_code),
        ) {
            (Option::Some(s), Option::Some(g)) => Result::<
                (DeviceState, DeviceStateReason),
                Error,
            >::Ok((s, g)),
            _ => Result::<(DeviceState, DeviceStateReason), Error>::Err(Error::UnsupportedType),
        }),
{
    let s = match device_state_from_code(state_code) {
        Ok(s) => s,
        Err(e) => {
            return Err(e);
        },
    };
    match state_reason_from_code(reason_code) {
        Ok(g) => Ok((s, g)),
        Err(e) => Err(e),
    }
}

/// Interpret an optional remote string property: the remote reports "no
/// value" as an empty string, which callers receive as an absent value.
pub fn optional_when_nonempty(value: String) -> (r: Option<String>)
    ensures
        value@.len() == 0 ==> r is None,
        value@.len() > 0 ==> (r matches Some(v) && v@ == value@),
{
    if value.as_str().is_empty() {
        None
    } else {
        Some(value)
    }
}

/// Build device handles from a listing of object paths, in the order the
/// remote returned them. Every handle addresses the same service as the
/// handle the listing came from.
pub fn devices_from_paths(origin: &BusAddress, paths: Vec<String>) -> (devs: Vec<Device>)
    ensures
        devs@.len() == paths@.len(),
        forall|i: int|
            #![trigger devs@[i]]
            0 <= i < paths@.len() ==> devs@[i]@ == (AddressModel {
                destination: origin@.destination,
                path: paths@[i]@,
            }),
{
    let mut devs: Vec<Device> = Vec::new();
    let mut idx: usize = 0;
    while idx < paths.len()
        invariant
            idx <= paths@.len(),
            devs@.len() == idx,
            forall|i: int|
                #![trigger devs@[i]]
                0 <= i < idx ==> devs@[i]@ == (AddressModel {
                    destination: origin@.destination,
                    path: paths@[i]@,
                }),
        decreases paths@.len() - idx,
    {
        let path = paths[idx].clone();
        devs.push(Device { address: origin.with_path(path) });
        idx = idx + 1;
    }
    devs
}

} // verus!
