//! Wireless device handles, access points, and scan requests.
//!
//! A wireless handle specializes a device handle: both address the same
//! remote object. The remote lists visible access points as object paths,
//! including hidden networks whose SSID is an empty byte sequence rather
//! than absent; the access point a device is currently associated with is
//! reported separately, and the service stands for "none" with the root
//! object path. Timestamps come in boot-time seconds with a negative
//! sentinel for "never", which callers receive as an absent value.

use vstd::prelude::*;

use crate::bus::AddressModel;
use crate::bus::BusAddress;
use crate::device::Device;

verus! {

/// A handle on one remote Wi-Fi device, addressing the same object as the
/// device handle it was cast from.
#[derive(Debug)]
pub struct WirelessDevice {
    /// The generic handle this specialization wraps.
    pub parent: Device,
}

impl View for WirelessDevice {
    type V = AddressModel;

    open spec fn view(&self) -> AddressModel {
        self.parent@
    }
}

impl Clone for WirelessDevice {
    fn clone(&self) -> (r: Self)
        ensures
            r@ == self@,
    {
        WirelessDevice { parent: self.parent.clone() }
    }
}

impl WirelessDevice {
    /// The underlying generic device handle: the same remote object.
    pub fn device(&self) -> (d: &Device)
        ensures
            d@ == self@,
    {
        &self.parent
    }

    /// Build access point handles from a listing of object paths, in the
    /// order the remote returned them. Every handle addresses the same
    /// service as this device.
    pub fn access_points_from_paths(&self, paths: Vec<String>) -> (aps: Vec<AccessPoint>)
        ensures
            aps@.len() == paths@.len(),
            forall|i: int|
                #![trigger aps@[i]]
                0 <= i < paths@.len() ==> aps@[i]@ == (AddressModel {
                    destination: self@.destination,
                    path: paths@[i]@,
                }),
    {
        let mut aps: Vec<AccessPoint> = Vec::new();
        let mut idx: usize = 0;
        while idx < paths.len()
            invariant
                idx <= paths@.len(),
                aps@.len() == idx,
                forall|i: int|
                    #![trigger aps@[i]]
                    0 <= i < idx ==> aps@[i]@ == (AddressModel {
                        destination: self@.destination,
                        path: paths@[i]@,
                    }),
            decreases paths@.len() - idx,
        {
            let path = paths[idx].clone();
            aps.push(AccessPoint { address: self.parent.address.with_path(path) });
            idx = idx + 1;
        }
        aps
    }

    /// Interpret the remote's report of the currently associated access
    /// point. The service stands for "not associated" with the root object
    /// path, which callers receive as an entirely absent value — distinct
    /// from an associated access point whose SSID happens to be empty.
    pub fn active_access_point_from_path(&self, path: String) -> (r: Option<AccessPoint>)
        ensures
            path@ == "/"@ ==> r is None,
            path@ != "/"@ ==> (r matches Some(ap) && ap@ == (AddressModel {
                destination: self@.destination,
                path: path@,
            })),
    {
        let root: String = "/".to_owned();
        if path == root {
            None
        } else {
            Some(AccessPoint { address: self.parent.address.with_path(path) })
        }
    }
}

/// A handle on one observed radio network.
#[derive(Debug)]
pub struct AccessPoint {
    /// The address of the remote access point object.
    pub address: BusAddress,
}

impl View for AccessPoint {
    type V = AddressModel;

    open spec fn view(&self) -> AddressModel {
        self.address@
    }
}

impl Clone for AccessPoint {
    fn clone(&self) -> (r: Self)
        ensures
            r@ == self@,
    {
        AccessPoint { address: self.address.clone() }
    }
}

impl AccessPoint {
    /// The object path identifying this access point on the bus.
    pub fn object_path(&self) -> (p: &String)
        ensures
            p@ == self@.path,
    {
        &self.address.path
    }
}

/// An SSID as the raw octets the radio network announces.
///
/// An SSID is not guaranteed to be valid text, so it is never coerced to a
/// string. A hidden network announces an empty octet sequence: such an SSID
/// is present but empty, which is not the same as no access point at all.
#[derive(Debug)]
pub struct Ssid {
    /// The announced octets, up to 32 of them.
    pub octets: Vec<u8>,
}

/// Whether an SSID with these octets belongs to a hidden network.
pub open spec fn spec_ssid_hidden(octets: Seq<u8>) -> bool {
    octets.len() == 0
}

impl View for Ssid {
    type V = Seq<u8>;

    open spec fn view(&self) -> Seq<u8> {
        self.octets@
    }
}

impl Clone for Ssid {
    fn clone(&self) -> (r: Self)
        ensures
            r@ == self@,
    {
        Ssid { octets: clone_octets(&self.octets) }
    }
}

impl Ssid {
    /// Wrap the octets the remote reported, unchanged.
    pub fn from_bytes(octets: Vec<u8>) -> (s: Ssid)
        ensures
            s@ == octets@,
    {
        Ssid { octets }
    }

    /// Whether this SSID belongs to a hidden network: it is present but has
    /// no octets.
    pub fn is_hidden(&self) -> (r: bool)
        ensures
            r == spec_ssid_hidden(self@),
    {
        self.octets.len() == 0
    }

    /// The number of announced octets.
    pub fn len(&self) -> (n: usize)
        ensures
            n == self@.len(),
    {
        self.octets.len()
    }
}

/// A hidden network's SSID is reported present-but-empty: wrapped in a
/// present value like any other SSID, and distinguishable from the entirely
/// absent report that stands for "no access point associated".
pub proof fn lemma_hidden_ssid_reported_present(s: Ssid)
    requires
        spec_ssid_hidden(s@),
    ensures
        Option::Some(s) !is None,
        Option::Some(s) matches Option::Some(inner) && inner@.len() == 0,
{
}

/// Clone an octet vector, octet for octet.
fn clone_octets(octets: &Vec<u8>) -> (r: Vec<u8>)
    ensures
        r@ == octets@,
{
    let cloned = octets.clone();
    proof {
        assert(octets@ =~= cloned@);
    }
    cloned
}

/// What a scan request asks the device to look for.
///
/// A scan either sweeps every network in range or is scoped to specific
/// SSIDs, passed as raw octet sequences since SSIDs are not guaranteed to be
/// valid text.
#[derive(Debug)]
pub struct ScanOptions {
    /// The SSIDs to scan for, or absent to scan for every network in range.
    pub ssids: Option<Vec<Ssid>>,
}

impl ScanOptions {
    /// A request to scan for every network in range.
    pub fn all() -> (o: ScanOptions)
        ensures
            o.ssids is None,
    {
        ScanOptions { ssids: None }
    }

    /// A request to scan for the given SSIDs only.
    pub fn with_ssids(ssids: Vec<Ssid>) -> (o: ScanOptions)
        ensures
            o.ssids matches Some(list) && list@ == ssids@,
    {
        ScanOptions { ssids: Some(ssids) }
    }
}

/// Interpret a last-seen timestamp from the wire, in boot-time seconds.
///
/// The remote stands for "never seen in scan results" with a negative
/// sentinel; a value that does not fit the target range is likewise reported
/// absent rather than erring, which is exactly the sentinel convention.
pub fn last_seen_from_wire(ts: i32) -> (r: Option<u32>)
    ensures
        ts >= 0 ==> r == Option::Some(ts as u32),
        ts < 0 ==> r is None,
{
    if ts >= 0 {
        Some(ts as u32)
    } else {
        None
    }
}

/// Interpret a last-scan timestamp from the wire, in boot-time seconds.
///
/// The remote stands for "never scanned" with a negative sentinel; a value
/// that does not fit the target range is likewise reported absent rather
/// than erring, which is exactly the sentinel convention.
pub fn last_scan_from_wire(ts: i64) -> (r: Option<u64>)
    ensures
        ts >= 0 ==> r == Option::Some(ts as u64),
        ts < 0 ==> r is None,
{
    if ts >= 0 {
        Some(ts as u64)
    } else {
        None
    }
}

} // verus!
