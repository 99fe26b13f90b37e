//! Bitmask sets of the remote interface contract.
//!
//! Capability and security flags travel as integer bitmasks. Each set here
//! wraps the wire value whole: unknown bits are preserved rather than masked
//! away, so a service that defines new flags stays readable by this client.
//! The named constants are the bits the service's specification documents.

use vstd::prelude::*;

verus! {


/// What a manager reload should reload.
/// An empty mask asks the service to reload everything.
#[derive(Clone, Copy, Debug, PartialEq, Eq, Structural)]
pub struct ReloadFlags {
    /// The raw bitmask as reported by the service.
    pub bits: u32,
}

/// Reload the service's configuration from disk.
pub const RELOAD_CONF: u32 = 0x1;

/// Write DNS configuration to the resolver configuration file.
pub const RELOAD_DNS_RC: u32 = 0x2;

/// Restart the DNS plugin.
pub const RELOAD_DNS_FULL: u32 = 0x4;

impl ReloadFlags {
    /// Wrap a wire bitmask whole. Bits outside the known constants are
    /// kept intact, for forward compatibility with service versions that
    /// define flags this client does not know.
    pub fn from_bits_retain(bits: u32) -> (r: ReloadFlags)
        ensures
            r.bits == bits,
    {
        ReloadFlags { bits }
    }

    /// The raw bitmask, unknown bits included.
    pub fn bits(&self) -> (b: u32)
        ensures
            b == self.bits,
    {
        self.bits
    }

    /// Whether every bit of `mask` is set.
    pub fn contains(&self, mask: u32) -> (r: bool)
        ensures
            r == (self.bits & mask == mask),
    {
        self.bits & mask == mask
    }

    /// Whether any bit of `mask` is set.
    pub fn intersects(&self, mask: u32) -> (r: bool)
        ensures
            r == (self.bits & mask != 0),
    {
        self.bits & mask != 0
    }

    /// Whether no flag at all is set.
    pub fn is_empty(&self) -> (r: bool)
        ensures
            r == (self.bits == 0),
    {
        self.bits == 0
    }
}

/// Capabilities of a device.
#[derive(Clone, Copy, Debug, PartialEq, Eq, Structural)]
pub struct CapabilityFlags {
    /// The raw bitmask as reported by the service.
    pub bits: u32,
}

/// The service recognizes and can manage the device.
pub const DEVICE_CAP_NM_SUPPORTED: u32 = 0x1;

/// The device supports carrier detection.
pub const DEVICE_CAP_CARRIER_DETECT: u32 = 0x2;

/// The device is a software device.
pub const DEVICE_CAP_IS_SOFTWARE: u32 = 0x4;

/// The device supports SR-IOV.
pub const DEVICE_CAP_SRIOV: u32 = 0x8;

impl CapabilityFlags {
    /// Wrap a wire bitmask whole. Bits outside the known constants are
    /// kept intact, for forward compatibility with service versions that
    /// define flags this client does not know.
    pub fn from_bits_retain(bits: u32) -> (r: CapabilityFlags)
        ensures
            r.bits == bits,
    {
        CapabilityFlags { bits }
    }

    /// The raw bitmask, unknown bits included.
    pub fn bits(&self) -> (b: u32)
        ensures
            b == self.bits,
    {
        self.bits
    }

    /// Whether every bit of `mask` is set.
    pub fn contains(&self, mask: u32) -> (r: bool)
        ensures
            r == (self.bits & mask == mask),
    {
        self.bits & mask == mask
    }

    /// Whether any bit of `mask` is set.
    pub fn intersects(&self, mask: u32) -> (r: bool)
        ensures
            r == (self.bits & mask != 0),
    {
        self.bits & mask != 0
    }

    /// Whether no flag at all is set.
    pub fn is_empty(&self) -> (r: bool)
        ensures
            r == (self.bits == 0),
    {
        self.bits == 0
    }
}

/// Link-layer flags of a device's network interface.
#[derive(Clone, Copy, Debug, PartialEq, Eq, Structural)]
pub struct DeviceInterfaceFlags {
    /// The raw bitmask as reported by the service.
    pub bits: u32,
}

/// The interface is administratively up.
pub const IFACE_UP: u32 = 0x1;

/// The interface's link is up.
pub const IFACE_LOWER_UP: u32 = 0x2;

/// The interface is in promiscuous mode.
pub const IFACE_PROMISC: u32 = 0x4;

/// The interface has carrier.
pub const IFACE_CARRIER: u32 = 0x10000;

/// The interface's LLDP client is running.
pub const IFACE_LLDP_CLIENT_ENABLED: u32 = 0x20000;

impl DeviceInterfaceFlags {
    /// Wrap a wire bitmask whole. Bits outside the known constants are
    /// kept intact, for forward compatibility with service versions that
    /// define flags this client does not know.
    pub fn from_bits_retain(bits: u32) -> (r: DeviceInterfaceFlags)
        ensures
            r.bits == bits,
    {
        DeviceInterfaceFlags { bits }
    }

    /// The raw bitmask, unknown bits included.
    pub fn bits(&self) -> (b: u32)
        ensures
            b == self.bits,
    {
        self.bits
    }

    /// Whether every bit of `mask` is set.
    pub fn contains(&self, mask: u32) -> (r: bool)
        ensures
            r == (self.bits & mask == mask),
    {
        self.bits & mask == mask
    }

    /// Whether any bit of `mask` is set.
    pub fn intersects(&self, mask: u32) -> (r: bool)
        ensures
            r == (self.bits & mask != 0),
    {
        self.bits & mask != 0
    }

    /// Whether no flag at all is set.
    pub fn is_empty(&self) -> (r: bool)
        ensures
            r == (self.bits == 0),
    {
        self.bits == 0
    }
}

/// Additional flags of a connection profile.
#[derive(Clone, Copy, Debug, PartialEq, Eq, Structural)]
pub struct ConnectionFlags {
    /// The raw bitmask as reported by the service.
    pub bits: u32,
}

/// The in-memory state of the profile differs from the on-disk state.
pub const CONNECTION_UNSAVED: u32 = 0x1;

/// The profile was generated by the service itself.
pub const CONNECTION_NM_GENERATED: u32 = 0x2;

/// The profile is volatile and goes away when disconnected.
pub const CONNECTION_VOLATILE: u32 = 0x4;

/// The profile tracks configuration added outside the service.
pub const CONNECTION_EXTERNAL: u32 = 0x8;

impl ConnectionFlags {
    /// Wrap a wire bitmask whole. Bits outside the known constants are
    /// kept intact, for forward compatibility with service versions that
    /// define flags this client does not know.
    pub fn from_bits_retain(bits: u32) -> (r: ConnectionFlags)
        ensures
            r.bits == bits,
    {
        ConnectionFlags { bits }
    }

    /// The raw bitmask, unknown bits included.
    pub fn bits(&self) -> (b: u32)
        ensures
            b == self.bits,
    {
        self.bits
    }

    /// Whether every bit of `mask` is set.
    pub fn contains(&self, mask: u32) -> (r: bool)
        ensures
            r == (self.bits & mask == mask),
    {
        self.bits & mask == mask
    }

    /// Whether any bit of `mask` is set.
    pub fn intersects(&self, mask: u32) -> (r: bool)
        ensures
            r == (self.bits & mask != 0),
    {
        self.bits & mask != 0
    }

    /// Whether no flag at all is set.
    pub fn is_empty(&self) -> (r: bool)
        ensures
            r == (self.bits == 0),
    {
        self.bits == 0
    }
}

/// Capabilities of a wireless device.
#[derive(Clone, Copy, Debug, PartialEq, Eq, Structural)]
pub struct WirelessClientCapabilityFlags {
    /// The raw bitmask as reported by the service.
    pub bits: u32,
}

/// Supports the WEP 40-bit cipher.
pub const WIFI_CAP_CIPHER_WEP40: u32 = 0x1;

/// Supports the WEP 104-bit cipher.
pub const WIFI_CAP_CIPHER_WEP104: u32 = 0x2;

/// Supports the TKIP cipher.
pub const WIFI_CAP_CIPHER_TKIP: u32 = 0x4;

/// Supports the CCMP cipher.
pub const WIFI_CAP_CIPHER_CCMP: u32 = 0x8;

/// Supports WPA1 authentication.
pub const WIFI_CAP_WPA: u32 = 0x10;

/// Supports WPA2/RSN authentication.
pub const WIFI_CAP_RSN: u32 = 0x20;

/// Can act as an access point.
pub const WIFI_CAP_AP: u32 = 0x40;

/// Can join ad-hoc networks.
pub const WIFI_CAP_ADHOC: u32 = 0x80;

/// Reports the frequencies it can operate on.
pub const WIFI_CAP_FREQ_VALID: u32 = 0x100;

/// Can operate in the 2.4 GHz band.
pub const WIFI_CAP_FREQ_2GHZ: u32 = 0x200;

/// Can operate in the 5 GHz band.
pub const WIFI_CAP_FREQ_5GHZ: u32 = 0x400;

/// Can join mesh networks.
pub const WIFI_CAP_MESH: u32 = 0x1000;

/// Supports WPA2/RSN in an IBSS network.
pub const WIFI_CAP_IBSS_RSN: u32 = 0x2000;

impl WirelessClientCapabilityFlags {
    /// Wrap a wire bitmask whole. Bits outside the known constants are
    /// kept intact, for forward compatibility with service versions that
    /// define flags this client does not know.
    pub fn from_bits_retain(bits: u32) -> (r: WirelessClientCapabilityFlags)
        ensures
            r.bits == bits,
    {
        WirelessClientCapabilityFlags { bits }
    }

    /// The raw bitmask, unknown bits included.
    pub fn bits(&self) -> (b: u32)
        ensures
            b == self.bits,
    {
        self.bits
    }

    /// Whether every bit of `mask` is set.
    pub fn contains(&self, mask: u32) -> (r: bool)
        ensures
            r == (self.bits & mask == mask),
    {
        self.bits & mask == mask
    }

    /// Whether any bit of `mask` is set.
    pub fn intersects(&self, mask: u32) -> (r: bool)
        ensures
            r == (self.bits & mask != 0),
    {
        self.bits & mask != 0
    }

    /// Whether no flag at all is set.
    pub fn is_empty(&self) -> (r: bool)
        ensures
            r == (self.bits == 0),
    {
        self.bits == 0
    }
}

/// 802.11 capabilities of an access point.
#[derive(Clone, Copy, Debug, PartialEq, Eq, Structural)]
pub struct AccessPointCapabilityFlags {
    /// The raw bitmask as reported by the service.
    pub bits: u32,
}

/// The access point requires authentication and encryption.
pub const AP_PRIVACY: u32 = 0x1;

/// The access point supports WPS.
pub const AP_WPS: u32 = 0x2;

/// The access point supports WPS push-button registration.
pub const AP_WPS_PBC: u32 = 0x4;

/// The access point supports WPS PIN registration.
pub const AP_WPS_PIN: u32 = 0x8;

impl AccessPointCapabilityFlags {
    /// Wrap a wire bitmask whole. Bits outside the known constants are
    /// kept intact, for forward compatibility with service versions that
    /// define flags this client does not know.
    pub fn from_bits_retain(bits: u32) -> (r: AccessPointCapabilityFlags)
        ensures
            r.bits == bits,
    {
        AccessPointCapabilityFlags { bits }
    }

    /// The raw bitmask, unknown bits included.
    pub fn bits(&self) -> (b: u32)
        ensures
            b == self.bits,
    {
        self.bits
    }

    /// Whether every bit of `mask` is set.
    pub fn contains(&self, mask: u32) -> (r: bool)
        ensures
            r == (self.bits & mask == mask),
    {
        self.bits & mask == mask
    }

    /// Whether any bit of `mask` is set.
    pub fn intersects(&self, mask: u32) -> (r: bool)
        ensures
            r == (self.bits & mask != 0),
    {
        self.bits & mask != 0
    }

    /// Whether no flag at all is set.
    pub fn is_empty(&self) -> (r: bool)
        ensures
            r == (self.bits == 0),
    {
        self.bits == 0
    }
}

/// Security capabilities of an access point, reported once for WPA and once
/// for RSN.
#[derive(Clone, Copy, Debug, PartialEq, Eq, Structural)]
pub struct AccessPointSecurityFlags {
    /// The raw bitmask as reported by the service.
    pub bits: u32,
}

/// Supports pairwise WEP 40-bit encryption.
pub const AP_SEC_PAIR_WEP40: u32 = 0x1;

/// Supports pairwise WEP 104-bit encryption.
pub const AP_SEC_PAIR_WEP104: u32 = 0x2;

/// Supports pairwise TKIP encryption.
pub const AP_SEC_PAIR_TKIP: u32 = 0x4;

/// Supports pairwise CCMP encryption.
pub const AP_SEC_PAIR_CCMP: u32 = 0x8;

/// Supports group WEP 40-bit encryption.
pub const AP_SEC_GROUP_WEP40: u32 = 0x10;

/// Supports group WEP 104-bit encryption.
pub const AP_SEC_GROUP_WEP104: u32 = 0x20;

/// Supports group TKIP encryption.
pub const AP_SEC_GROUP_TKIP: u32 = 0x40;

/// Supports group CCMP encryption.
pub const AP_SEC_GROUP_CCMP: u32 = 0x80;

/// Supports pre-shared key management.
pub const AP_SEC_KEY_MGMT_PSK: u32 = 0x100;

/// Supports 802.1X key management.
pub const AP_SEC_KEY_MGMT_8021X: u32 = 0x200;

/// Supports SAE key management.
pub const AP_SEC_KEY_MGMT_SAE: u32 = 0x400;

/// Supports OWE key management.
pub const AP_SEC_KEY_MGMT_OWE: u32 = 0x800;

/// Supports OWE transition-mode key management.
pub const AP_SEC_KEY_MGMT_OWE_TM: u32 = 0x1000;

/// Supports WPA3 Enterprise Suite-B 192-bit mode.
pub const AP_SEC_KEY_MGMT_EAP_SUITE_B_192: u32 = 0x2000;

impl AccessPointSecurityFlags {
    /// Wrap a wire bitmask whole. Bits outside the known constants are
    /// kept intact, for forward compatibility with service versions that
    /// define flags this client does not know.
    pub fn from_bits_retain(bits: u32) -> (r: AccessPointSecurityFlags)
        ensures
            r.bits == bits,
    {
        AccessPointSecurityFlags { bits }
    }

    /// The raw bitmask, unknown bits included.
    pub fn bits(&self) -> (b: u32)
        ensures
            b == self.bits,
    {
        self.bits
    }

    /// Whether every bit of `mask` is set.
    pub fn contains(&self, mask: u32) -> (r: bool)
        ensures
            r == (self.bits & mask == mask),
    {
        self.bits & mask == mask
    }

    /// Whether any bit of `mask` is set.
    pub fn intersects(&self, mask: u32) -> (r: bool)
        ensures
            r == (self.bits & mask != 0),
    {
        self.bits & mask != 0
    }

    /// Whether no flag at all is set.
    pub fn is_empty(&self) -> (r: bool)
        ensures
            r == (self.bits == 0),
    {
        self.bits == 0
    }
}

} // verus!
