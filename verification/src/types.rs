//! The closed enumeration tables of the remote interface contract.
//!
//! The service reports device kinds, operational states, state reasons,
//! connectivity, metered status, and radio modes as numeric wire codes. The
//! mapping from code to named variant is a closed table owned by the
//! service's own versioned specification; this module carries that table and
//! proves each classifier against it. A code outside the table always
//! surfaces as [`Error::UnsupportedType`] so that callers can detect
//! protocol drift, never as a silently guessed variant.

use vstd::prelude::*;

use crate::errors::Error;

verus! {


/// The general kind of a network device: ethernet, Wi-Fi, bridge, and so on.
#[derive(Clone, Copy, Debug, PartialEq, Eq, Structural)]
pub enum DeviceType {
    /// The device type is unknown.
    Unknown,
    /// A wired ethernet device.
    Ethernet,
    /// An 802.11 Wi-Fi device.
    Wifi,
    /// Not used; kept so the table matches the service's.
    Unused1,
    /// Not used; kept so the table matches the service's.
    Unused2,
    /// A Bluetooth device supporting PAN or DUN.
    Bt,
    /// An OLPC XO mesh device.
    OlpcMesh,
    /// An 802.16e mobile WiMAX device.
    Wimax,
    /// A modem supporting analog telephone, CDMA/EVDO, GSM/UMTS, or LTE.
    Modem,
    /// An IP-over-InfiniBand device.
    Infiniband,
    /// A bond master interface.
    Bond,
    /// An 802.1Q VLAN interface.
    Vlan,
    /// An ADSL modem.
    Adsl,
    /// A bridge master interface.
    Bridge,
    /// A device the service recognizes but does not model specifically.
    Generic,
    /// A team master interface.
    Team,
    /// A TUN or TAP interface.
    Tun,
    /// An IP tunnel interface.
    IpTunnel,
    /// A MACVLAN interface.
    Macvlan,
    /// A VXLAN interface.
    Vxlan,
    /// A virtual ethernet pair interface.
    Veth,
    /// A MACsec interface.
    Macsec,
    /// A dummy interface.
    Dummy,
    /// A PPP interface.
    Ppp,
    /// An Open vSwitch interface.
    OvsInterface,
    /// An Open vSwitch port.
    OvsPort,
    /// An Open vSwitch bridge.
    OvsBridge,
    /// An IEEE 802.15.4 (WPAN) MAC layer device.
    Wpan,
    /// A 6LoWPAN interface.
    SixLowPan,
    /// A WireGuard interface.
    Wireguard,
    /// An 802.11 Wi-Fi P2P device.
    WifiP2p,
    /// A VRF (virtual routing and forwarding) interface.
    Vrf,
    /// A loopback interface.
    Loopback,
}

/// The closed wire table of [`DeviceType`]: the variant a code denotes,
/// or nothing when the code is outside the known enumeration.
pub open spec fn spec_device_type_from_code(code: u32) -> Option<DeviceType> {
    if code == 0 {
        Option::Some(DeviceType::Unknown)
    } else if code == 1 {
        Option::Some(DeviceType::Ethernet)
    } else if code == 2 {
        Option::Some(DeviceType::Wifi)
    } else if code == 3 {
        Option::Some(DeviceType::Unused1)
    } else if code == 4 {
        Option::Some(DeviceType::Unused2)
    } else if code == 5 {
        Option::Some(DeviceType::Bt)
    } else if code == 6 {
        Option::Some(DeviceType::OlpcMesh)
    } else if code == 7 {
        Option::Some(DeviceType::Wimax)
    } else if code == 8 {
        Option::Some(DeviceType::Modem)
    } else if code == 9 {
        Option::Some(DeviceType::Infiniband)
    } else if code == 10 {
        Option::Some(DeviceType::Bond)
    } else if code == 11 {
        Option::Some(DeviceType::Vlan)
    } else if code == 12 {
        Option::Some(DeviceType::Adsl)
    } else if code == 13 {
        Option::Some(DeviceType::Bridge)
    } else if code == 14 {
        Option::Some(DeviceType::Generic)
    } else if code == 15 {
        Option::Some(DeviceType::Team)
    } else if code == 16 {
        Option::Some(DeviceType::Tun)
    } else if code == 17 {
        Option::Some(DeviceType::IpTunnel)
    } else if code == 18 {
        Option::Some(DeviceType::Macvlan)
    } else if code == 19 {
        Option::Some(DeviceType::Vxlan)
    } else if code == 20 {
        Option::Some(DeviceType::Veth)
    } else if code == 21 {
        Option::Some(DeviceType::Macsec)
    } else if code == 22 {
        Option::Some(DeviceType::Dummy)
    } else if code == 23 {
        Option::Some(DeviceType::Ppp)
    } else if code == 24 {
        Option::Some(DeviceType::OvsInterface)
    } else if code == 25 {
        Option::Some(DeviceType::OvsPort)
    } else if code == 26 {
        Option::Some(DeviceType::OvsBridge)
    } else if code == 27 {
        Option::Some(DeviceType::Wpan)
    } else if code == 28 {
        Option::Some(DeviceType::SixLowPan)
    } else if code == 29 {
        Option::Some(DeviceType::Wireguard)
    } else if code == 30 {
        Option::Some(DeviceType::WifiP2p)
    } else if code == 31 {
        Option::Some(DeviceType::Vrf)
    } else if code == 32 {
        Option::Some(DeviceType::Loopback)
    } else {
        Option::None
    }
}

/// The wire code of each [`DeviceType`] variant.
pub open spec fn spec_device_type_code(t: DeviceType) -> u32 {
    match t {
        DeviceType::Unknown => 0,
        DeviceType::Ethernet => 1,
        DeviceType::Wifi => 2,
        DeviceType::Unused1 => 3,
        DeviceType::Unused2 => 4,
        DeviceType::Bt => 5,
        DeviceType::OlpcMesh => 6,
        DeviceType::Wimax => 7,
        DeviceType::Modem => 8,
        DeviceType::Infiniband => 9,
        DeviceType::Bond => 10,
        DeviceType::Vlan => 11,
        DeviceType::Adsl => 12,
        DeviceType::Bridge => 13,
        DeviceType::Generic => 14,
        DeviceType::Team => 15,
        DeviceType::Tun => 16,
        DeviceType::IpTunnel => 17,
        DeviceType::Macvlan => 18,
        DeviceType::Vxlan => 19,
        DeviceType::Veth => 20,
        DeviceType::Macsec => 21,
        DeviceType::Dummy => 22,
        DeviceType::Ppp => 23,
        DeviceType::OvsInterface => 24,
        DeviceType::OvsPort => 25,
        DeviceType::OvsBridge => 26,
        DeviceType::Wpan => 27,
        DeviceType::SixLowPan => 28,
        DeviceType::Wireguard => 29,
        DeviceType::WifiP2p => 30,
        DeviceType::Vrf => 31,
        DeviceType::Loopback => 32,
    }
}

/// Classify a wire code as a [`DeviceType`].
///
/// A code outside the known enumeration is [`Error::UnsupportedType`],
/// never a guessed variant: callers can detect protocol drift when the
/// service adds enumeration members this client does not know.
pub fn device_type_from_code(code: u32) -> (r: Result<DeviceType, Error>)
    ensures
        r == (match spec_device_type_from_code(code) {
            Option::Some(t) => Result::<DeviceType, Error>::Ok(t),
            Option::None => Result::<DeviceType, Error>::Err(Error::UnsupportedType),
        }),
{
    match code {
        0 => Ok(DeviceType::Unknown),
        1 => Ok(DeviceType::Ethernet),
        2 => Ok(DeviceType::Wifi),
        3 => Ok(DeviceType::Unused1),
        4 => Ok(DeviceType::Unused2),
        5 => Ok(DeviceType::Bt),
        6 => Ok(DeviceType::OlpcMesh),
        7 => Ok(DeviceType::Wimax),
        8 => Ok(DeviceType::Modem),
        9 => Ok(DeviceType::Infiniband),
        10 => Ok(DeviceType::Bond),
        11 => Ok(DeviceType::Vlan),
        12 => Ok(DeviceType::Adsl),
        13 => Ok(DeviceType::Bridge),
        14 => Ok(DeviceType::Generic),
        15 => Ok(DeviceType::Team),
        16 => Ok(DeviceType::Tun),
        17 => Ok(DeviceType::IpTunnel),
        18 => Ok(DeviceType::Macvlan),
        19 => Ok(DeviceType::Vxlan),
        20 => Ok(DeviceType::Veth),
        21 => Ok(DeviceType::Macsec),
        22 => Ok(DeviceType::Dummy),
        23 => Ok(DeviceType::Ppp),
        24 => Ok(DeviceType::OvsInterface),
        25 => Ok(DeviceType::OvsPort),
        26 => Ok(DeviceType::OvsBridge),
        27 => Ok(DeviceType::Wpan),
        28 => Ok(DeviceType::SixLowPan),
        29 => Ok(DeviceType::Wireguard),
        30 => Ok(DeviceType::WifiP2p),
        31 => Ok(DeviceType::Vrf),
        32 => Ok(DeviceType::Loopback),
        _ => Err(Error::UnsupportedType),
    }
}

impl DeviceType {
    /// The wire code this variant stands for.
    pub fn code(&self) -> (c: u32)
        ensures
            c == spec_device_type_code(*self),
    {
        match self {
            DeviceType::Unknown => 0,
            DeviceType::Ethernet => 1,
            DeviceType::Wifi => 2,
            DeviceType::Unused1 => 3,
            DeviceType::Unused2 => 4,
            DeviceType::Bt => 5,
            DeviceType::OlpcMesh => 6,
            DeviceType::Wimax => 7,
            DeviceType::Modem => 8,
            DeviceType::Infiniband => 9,
            DeviceType::Bond => 10,
            DeviceType::Vlan => 11,
            DeviceType::Adsl => 12,
            DeviceType::Bridge => 13,
            DeviceType::Generic => 14,
            DeviceType::Team => 15,
            DeviceType::Tun => 16,
            DeviceType::IpTunnel => 17,
            DeviceType::Macvlan => 18,
            DeviceType::Vxlan => 19,
            DeviceType::Veth => 20,
            DeviceType::Macsec => 21,
            DeviceType::Dummy => 22,
            DeviceType::Ppp => 23,
            DeviceType::OvsInterface => 24,
            DeviceType::OvsPort => 25,
            DeviceType::OvsBridge => 26,
            DeviceType::Wpan => 27,
            DeviceType::SixLowPan => 28,
            DeviceType::Wireguard => 29,
            DeviceType::WifiP2p => 30,
            DeviceType::Vrf => 31,
            DeviceType::Loopback => 32,
        }
    }
}

/// The operational state of a device.
#[derive(Clone, Copy, Debug, PartialEq, Eq, Structural)]
pub enum DeviceState {
    /// The device's state is unknown.
    Unknown,
    /// The device is not managed by the service.
    Unmanaged,
    /// The device cannot be activated (missing firmware, rfkill, no carrier).
    Unavailable,
    /// The device can be activated but is not currently.
    Disconnected,
    /// The device is being prepared for a connection.
    Prepare,
    /// The device is being configured (associating, negotiating).
    Config,
    /// The device needs secrets to continue activation.
    NeedAuth,
    /// The device is requesting IP configuration.
    IpConfig,
    /// The device's IP connectivity is being checked.
    IpCheck,
    /// The device waits on a secondary connection (such as a VPN).
    Secondaries,
    /// The device is active on a network.
    Activated,
    /// The device's connection is being torn down.
    Deactivating,
    /// The device failed to activate.
    Failed,
}

/// The closed wire table of [`DeviceState`]: the variant a code denotes,
/// or nothing when the code is outside the known enumeration.
pub open spec fn spec_device_state_from_code(code: u32) -> Option<DeviceState> {
    if code == 0 {
        Option::Some(DeviceState::Unknown)
    } else if code == 10 {
        Option::Some(DeviceState::Unmanaged)
    } else if code == 20 {
        Option::Some(DeviceState::Unavailable)
    } else if code == 30 {
        Option::Some(DeviceState::Disconnected)
    } else if code == 40 {
        Option::Some(DeviceState::Prepare)
    } else if code == 50 {
        Option::Some(DeviceState::Config)
    } else if code == 60 {
        Option::Some(DeviceState::NeedAuth)
    } else if code == 70 {
        Option::Some(DeviceState::IpConfig)
    } else if code == 80 {
        Option::Some(DeviceState::IpCheck)
    } else if code == 90 {
        Option::Some(DeviceState::Secondaries)
    } else if code == 100 {
        Option::Some(DeviceState::Activated)
    } else if code == 110 {
        Option::Some(DeviceState::Deactivating)
    } else if code == 120 {
        Option::Some(DeviceState::Failed)
    } else {
        Option::None
    }
}

/// The wire code of each [`DeviceState`] variant.
pub open spec fn spec_device_state_code(t: DeviceState) -> u32 {
    match t {
        DeviceState::Unknown => 0,
        DeviceState::Unmanaged => 10,
        DeviceState::Unavailable => 20,
        DeviceState::Disconnected => 30,
        DeviceState::Prepare => 40,
        DeviceState::Config => 50,
        DeviceState::NeedAuth => 60,
        DeviceState::IpConfig => 70,
        DeviceState::IpCheck => 80,
        DeviceState::Secondaries => 90,
        DeviceState::Activated => 100,
        DeviceState::Deactivating => 110,
        DeviceState::Failed => 120,
    }
}

/// Classify a wire code as a [`DeviceState`].
///
/// A code outside the known enumeration is [`Error::UnsupportedType`],
/// never a guessed variant: callers can detect protocol drift when the
/// service adds enumeration members this client does not know.
pub fn device_state_from_code(code: u32) -> (r: Result<DeviceState, Error>)
    ensures
        r == (match spec_device_state_from_code(code) {
            Option::Some(t) => Result::<DeviceState, Error>::Ok(t),
            Option::None => Result::<DeviceState, Error>::Err(Error::UnsupportedType),
        }),
{
    match code {
        0 => Ok(DeviceState::Unknown),
        10 => Ok(DeviceState::Unmanaged),
        20 => Ok(DeviceState::Unavailable),
        30 => Ok(DeviceState::Disconnected),
        40 => Ok(DeviceState::Prepare),
        50 => Ok(DeviceState::Config),
        60 => Ok(DeviceState::NeedAuth),
        70 => Ok(DeviceState::IpConfig),
        80 => Ok(DeviceState::IpCheck),
        90 => Ok(DeviceState::Secondaries),
        100 => Ok(DeviceState::Activated),
        110 => Ok(DeviceState::Deactivating),
        120 => Ok(DeviceState::Failed),
        _ => Err(Error::UnsupportedType),
    }
}

impl DeviceState {
    /// The wire code this variant stands for.
    pub fn code(&self) -> (c: u32)
        ensures
            c == spec_device_state_code(*self),
    {
        match self {
            DeviceState::Unknown => 0,
            DeviceState::Unmanaged => 10,
            DeviceState::Unavailable => 20,
            DeviceState::Disconnected => 30,
            DeviceState::Prepare => 40,
            DeviceState::Config => 50,
            DeviceState::NeedAuth => 60,
            DeviceState::IpConfig => 70,
            DeviceState::IpCheck => 80,
            DeviceState::Secondaries => 90,
            DeviceState::Activated => 100,
            DeviceState::Deactivating => 110,
            DeviceState::Failed => 120,
        }
    }
}

/// Why a device entered its current state.
#[derive(Clone, Copy, Debug, PartialEq, Eq, Structural)]
pub enum DeviceStateReason {
    /// No reason was given.
    NoReason,
    /// The reason is unknown.
    Unknown,
    /// The device is now managed.
    NowManaged,
    /// The device is now unmanaged.
    NowUnmanaged,
    /// The device could not be readied for configuration.
    ConfigFailed,
    /// IP configuration could not be reserved (no available address, timeout).
    IpConfigUnavailable,
    /// The IP configuration is no longer valid.
    IpConfigExpired,
    /// Secrets were required but not provided.
    NoSecrets,
    /// The 802.1X supplicant disconnected.
    SupplicantDisconnect,
    /// The 802.1X supplicant's configuration failed.
    SupplicantConfigFailed,
    /// The 802.1X supplicant failed.
    SupplicantFailed,
    /// The 802.1X supplicant took too long to authenticate.
    SupplicantTimeout,
    /// The PPP service failed to start.
    PppStartFailed,
    /// The PPP service disconnected.
    PppDisconnect,
    /// The PPP service failed.
    PppFailed,
    /// The DHCP client failed to start.
    DhcpStartFailed,
    /// The DHCP client reported an error.
    DhcpError,
    /// The DHCP client failed.
    DhcpFailed,
    /// The shared connection service failed to start.
    SharedStartFailed,
    /// The shared connection service failed.
    SharedFailed,
    /// The AutoIP service failed to start.
    AutoipStartFailed,
    /// The AutoIP service reported an error.
    AutoipError,
    /// The AutoIP service failed.
    AutoipFailed,
    /// The line is busy.
    ModemBusy,
    /// There was no dial tone.
    ModemNoDialTone,
    /// There was no carrier.
    ModemNoCarrier,
    /// Dialing timed out.
    ModemDialTimeout,
    /// Dialing failed.
    ModemDialFailed,
    /// Modem initialization failed.
    ModemInitFailed,
    /// The APN could not be selected.
    GsmApnFailed,
    /// The modem is not searching for networks.
    GsmRegistrationNotSearching,
    /// Network registration was denied.
    GsmRegistrationDenied,
    /// Network registration timed out.
    GsmRegistrationTimeout,
    /// Registration with the requested network failed.
    GsmRegistrationFailed,
    /// The PIN check failed.
    GsmPinCheckFailed,
    /// Necessary firmware for the device may be missing.
    FirmwareMissing,
    /// The device was removed.
    Removed,
    /// The service went to sleep.
    Sleeping,
    /// The device's active connection disappeared.
    ConnectionRemoved,
    /// A user or client requested the disconnection.
    UserRequested,
    /// The device's carrier or link changed.
    Carrier,
    /// The device's existing connection was assumed.
    ConnectionAssumed,
    /// The supplicant is now available.
    SupplicantAvailable,
    /// The modem could not be found.
    ModemNotFound,
    /// The Bluetooth connection failed or timed out.
    BtFailed,
    /// The device's SIM card is not inserted.
    GsmSimNotInserted,
    /// The device's SIM PIN is required.
    GsmSimPinRequired,
    /// The device's SIM PUK is required.
    GsmSimPukRequired,
    /// The device's SIM card is wrong.
    GsmSimWrong,
    /// The InfiniBand device does not support connected mode.
    InfinibandMode,
    /// A dependency of the connection failed.
    DependencyFailed,
    /// A problem with the RFC 2684 ethernet-over-ADSL bridge.
    Br2684Failed,
    /// The modem manager is unavailable.
    ModemManagerUnavailable,
    /// The Wi-Fi network could not be found.
    SsidNotFound,
    /// A secondary connection of the base connection failed.
    SecondaryConnectionFailed,
    /// DCB or FCoE setup failed.
    DcbFcoeFailed,
    /// Control of the teaming daemon failed.
    TeamdControlFailed,
    /// The modem failed or is no longer available.
    ModemFailed,
    /// The modem is now ready and available.
    ModemAvailable,
    /// The SIM PIN was incorrect.
    SimPinIncorrect,
    /// A new connection activation was enqueued.
    NewActivation,
    /// The device's parent changed.
    ParentChanged,
    /// The management state of the device's parent changed.
    ParentManagedChanged,
    /// A problem communicating with Open vSwitch's database.
    OvsdbFailed,
    /// A duplicate IP address was detected.
    IpAddressDuplicate,
    /// The selected IP method is not supported.
    IpMethodUnsupported,
    /// Configuration of SR-IOV parameters failed.
    SriovConfigurationFailed,
    /// The Wi-Fi P2P peer could not be found.
    PeerNotFound,
}

/// The closed wire table of [`DeviceStateReason`]: the variant a code denotes,
/// or nothing when the code is outside the known enumeration.
pub open spec fn spec_state_reason_from_code(code: u32) -> Option<DeviceStateReason> {
    if code == 0 {
        Option::Some(DeviceStateReason::NoReason)
    } else if code == 1 {
        Option::Some(DeviceStateReason::Unknown)
    } else if code == 2 {
        Option::Some(DeviceStateReason::NowManaged)
    } else if code == 3 {
        Option::Some(DeviceStateReason::NowUnmanaged)
    } else if code == 4 {
        Option::Some(DeviceStateReason::ConfigFailed)
    } else if code == 5 {
        Option::Some(DeviceStateReason::IpConfigUnavailable)
    } else if code == 6 {
        Option::Some(DeviceStateReason::IpConfigExpired)
    } else if code == 7 {
        Option::Some(DeviceStateReason::NoSecrets)
    } else if code == 8 {
        Option::Some(DeviceStateReason::SupplicantDisconnect)
    } else if code == 9 {
        Option::Some(DeviceStateReason::SupplicantConfigFailed)
    } else if code == 10 {
        Option::Some(DeviceStateReason::SupplicantFailed)
    } else if code == 11 {
        Option::Some(DeviceStateReason::SupplicantTimeout)
    } else if code == 12 {
        Option::Some(DeviceStateReason::PppStartFailed)
    } else if code == 13 {
        Option::Some(DeviceStateReason::PppDisconnect)
    } else if code == 14 {
        Option::Some(DeviceStateReason::PppFailed)
    } else if code == 15 {
        Option::Some(DeviceStateReason::DhcpStartFailed)
    } else if code == 16 {
        Option::Some(DeviceStateReason::DhcpError)
    } else if code == 17 {
        Option::Some(DeviceStateReason::DhcpFailed)
    } else if code == 18 {
        Option::Some(DeviceStateReason::SharedStartFailed)
    } else if code == 19 {
        Option::Some(DeviceStateReason::SharedFailed)
    } else if code == 20 {
        Option::Some(DeviceStateReason::AutoipStartFailed)
    } else if code == 21 {
        Option::Some(DeviceStateReason::AutoipError)
    } else if code == 22 {
        Option::Some(DeviceStateReason::AutoipFailed)
    } else if code == 23 {
        Option::Some(DeviceStateReason::ModemBusy)
    } else if code == 24 {
        Option::Some(DeviceStateReason::ModemNoDialTone)
    } else if code == 25 {
        Option::Some(DeviceStateReason::ModemNoCarrier)
    } else if code == 26 {
        Option::Some(DeviceStateReason::ModemDialTimeout)
    } else if code == 27 {
        Option::Some(DeviceStateReason::ModemDialFailed)
    } else if code == 28 {
        Option::Some(DeviceStateReason::ModemInitFailed)
    } else if code == 29 {
        Option::Some(DeviceStateReason::GsmApnFailed)
    } else if code == 30 {
        Option::Some(DeviceStateReason::GsmRegistrationNotSearching)
    } else if code == 31 {
        Option::Some(DeviceStateReason::GsmRegistrationDenied)
    } else if code == 32 {
        Option::Some(DeviceStateReason::GsmRegistrationTimeout)
    } else if code == 33 {
        Option::Some(DeviceStateReason::GsmRegistrationFailed)
    } else if code == 34 {
        Option::Some(DeviceStateReason::GsmPinCheckFailed)
    } else if code == 35 {
        Option::Some(DeviceStateReason::FirmwareMissing)
    } else if code == 36 {
        Option::Some(DeviceStateReason::Removed)
    } else if code == 37 {
        Option::Some(DeviceStateReason::Sleeping)
    } else if code == 38 {
        Option::Some(DeviceStateReason::ConnectionRemoved)
    } else if code == 39 {
        Option::Some(DeviceStateReason::UserRequested)
    } else if code == 40 {
        Option::Some(DeviceStateReason::Carrier)
    } else if code == 41 {
        Option::Some(DeviceStateReason::ConnectionAssumed)
    } else if code == 42 {
        Option::Some(DeviceStateReason::SupplicantAvailable)
    } else if code == 43 {
        Option::Some(DeviceStateReason::ModemNotFound)
    } else if code == 44 {
        Option::Some(DeviceStateReason::BtFailed)
    } else if code == 45 {
        Option::Some(DeviceStateReason::GsmSimNotInserted)
    } else if code == 46 {
        Option::Some(DeviceStateReason::GsmSimPinRequired)
    } else if code == 47 {
        Option::Some(DeviceStateReason::GsmSimPukRequired)
    } else if code == 48 {
        Option::Some(DeviceStateReason::GsmSimWrong)
    } else if code == 49 {
        Option::Some(DeviceStateReason::InfinibandMode)
    } else if code == 50 {
        Option::Some(DeviceStateReason::DependencyFailed)
    } else if code == 51 {
        Option::Some(DeviceStateReason::Br2684Failed)
    } else if code == 52 {
        Option::Some(DeviceStateReason::ModemManagerUnavailable)
    } else if code == 53 {
        Option::Some(DeviceStateReason::SsidNotFound)
    } else if code == 54 {
        Option::Some(DeviceStateReason::SecondaryConnectionFailed)
    } else if code == 55 {
        Option::Some(DeviceStateReason::DcbFcoeFailed)
    } else if code == 56 {
        Option::Some(DeviceStateReason::TeamdControlFailed)
    } else if code == 57 {
        Option::Some(DeviceStateReason::ModemFailed)
    } else if code == 58 {
        Option::Some(DeviceStateReason::ModemAvailable)
    } else if code == 59 {
        Option::Some(DeviceStateReason::SimPinIncorrect)
    } else if code == 60 {
        Option::Some(DeviceStateReason::NewActivation)
    } else if code == 61 {
        Option::Some(DeviceStateReason::ParentChanged)
    } else if code == 62 {
        Option::Some(DeviceStateReason::ParentManagedChanged)
    } else if code == 63 {
        Option::Some(DeviceStateReason::OvsdbFailed)
    } else if code == 64 {
        Option::Some(DeviceStateReason::IpAddressDuplicate)
    } else if code == 65 {
        Option::Some(DeviceStateReason::IpMethodUnsupported)
    } else if code == 66 {
        Option::Some(DeviceStateReason::SriovConfigurationFailed)
    } else if code == 67 {
        Option::Some(DeviceStateReason::PeerNotFound)
    } else {
        Option::None
    }
}

/// The wire code of each [`DeviceStateReason`] variant.
pub open spec fn spec_state_reason_code(t: DeviceStateReason) -> u32 {
    match t {
        DeviceStateReason::NoReason => 0,
        DeviceStateReason::Unknown => 1,
        DeviceStateReason::NowManaged => 2,
        DeviceStateReason::NowUnmanaged => 3,
        DeviceStateReason::ConfigFailed => 4,
        DeviceStateReason::IpConfigUnavailable => 5,
        DeviceStateReason::IpConfigExpired => 6,
        DeviceStateReason::NoSecrets => 7,
        DeviceStateReason::SupplicantDisconnect => 8,
        DeviceStateReason::SupplicantConfigFailed => 9,
        DeviceStateReason::SupplicantFailed => 10,
        DeviceStateReason::SupplicantTimeout => 11,
        DeviceStateReason::PppStartFailed => 12,
        DeviceStateReason::PppDisconnect => 13,
        DeviceStateReason::PppFailed => 14,
        DeviceStateReason::DhcpStartFailed => 15,
        DeviceStateReason::DhcpError => 16,
        DeviceStateReason::DhcpFailed => 17,
        DeviceStateReason::SharedStartFailed => 18,
        DeviceStateReason::SharedFailed => 19,
        DeviceStateReason::AutoipStartFailed => 20,
        DeviceStateReason::AutoipError => 21,
        DeviceStateReason::AutoipFailed => 22,
        DeviceStateReason::ModemBusy => 23,
        DeviceStateReason::ModemNoDialTone => 24,
        DeviceStateReason::ModemNoCarrier => 25,
        DeviceStateReason::ModemDialTimeout => 26,
        DeviceStateReason::ModemDialFailed => 27,
        DeviceStateReason::ModemInitFailed => 28,
        DeviceStateReason::GsmApnFailed => 29,
        DeviceStateReason::GsmRegistrationNotSearching => 30,
        DeviceStateReason::GsmRegistrationDenied => 31,
        DeviceStateReason::GsmRegistrationTimeout => 32,
        DeviceStateReason::GsmRegistrationFailed => 33,
        DeviceStateReason::GsmPinCheckFailed => 34,
        DeviceStateReason::FirmwareMissing => 35,
        DeviceStateReason::Removed => 36,
        DeviceStateReason::Sleeping => 37,
        DeviceStateReason::ConnectionRemoved => 38,
        DeviceStateReason::UserRequested => 39,
        DeviceStateReason::Carrier => 40,
        DeviceStateReason::ConnectionAssumed => 41,
        DeviceStateReason::SupplicantAvailable => 42,
        DeviceStateReason::ModemNotFound => 43,
        DeviceStateReason::BtFailed => 44,
        DeviceStateReason::GsmSimNotInserted => 45,
        DeviceStateReason::GsmSimPinRequired => 46,
        DeviceStateReason::GsmSimPukRequired => 47,
        DeviceStateReason::GsmSimWrong => 48,
        DeviceStateReason::InfinibandMode => 49,
        DeviceStateReason::DependencyFailed => 50,
        DeviceStateReason::Br2684Failed => 51,
        DeviceStateReason::ModemManagerUnavailable => 52,
        DeviceStateReason::SsidNotFound => 53,
        DeviceStateReason::SecondaryConnectionFailed => 54,
        DeviceStateReason::DcbFcoeFailed => 55,
        DeviceStateReason::TeamdControlFailed => 56,
        DeviceStateReason::ModemFailed => 57,
        DeviceStateReason::ModemAvailable => 58,
        DeviceStateReason::SimPinIncorrect => 59,
        DeviceStateReason::NewActivation => 60,
        DeviceStateReason::ParentChanged => 61,
        DeviceStateReason::ParentManagedChanged => 62,
        DeviceStateReason::OvsdbFailed => 63,
        DeviceStateReason::IpAddressDuplicate => 64,
        DeviceStateReason::IpMethodUnsupported => 65,
        DeviceStateReason::SriovConfigurationFailed => 66,
        DeviceStateReason::PeerNotFound => 67,
    }
}

/// Classify a wire code as a [`DeviceStateReason`].
///
/// A code outside the known enumeration is [`Error::UnsupportedType`],
/// never a guessed variant: callers can detect protocol drift when the
/// service adds enumeration members this client does not know.
pub fn state_reason_from_code(code: u32) -> (r: Result<DeviceStateReason, Error>)
    ensures
        r == (match spec_state_reason_from_code(code) {
            Option::Some(t) => Result::<DeviceStateReason, Error>::Ok(t),
            Option::None => Result::<DeviceStateReason, Error>::Err(Error::UnsupportedType),
        }),
{
    match code {
        0 => Ok(DeviceStateReason::NoReason),
        1 => Ok(DeviceStateReason::Unknown),
        2 => Ok(DeviceStateReason::NowManaged),
        3 => Ok(DeviceStateReason::NowUnmanaged),
        4 => Ok(DeviceStateReason::ConfigFailed),
        5 => Ok(DeviceStateReason::IpConfigUnavailable),
        6 => Ok(DeviceStateReason::IpConfigExpired),
        7 => Ok(DeviceStateReason::NoSecrets),
        8 => Ok(DeviceStateReason::SupplicantDisconnect),
        9 => Ok(DeviceStateReason::SupplicantConfigFailed),
        10 => Ok(DeviceStateReason::SupplicantFailed),
        11 => Ok(DeviceStateReason::SupplicantTimeout),
        12 => Ok(DeviceStateReason::PppStartFailed),
        13 => Ok(DeviceStateReason::PppDisconnect),
        14 => Ok(DeviceStateReason::PppFailed),
        15 => Ok(DeviceStateReason::DhcpStartFailed),
        16 => Ok(DeviceStateReason::DhcpError),
        17 => Ok(DeviceStateReason::DhcpFailed),
        18 => Ok(DeviceStateReason::SharedStartFailed),
        19 => Ok(DeviceStateReason::SharedFailed),
        20 => Ok(DeviceStateReason::AutoipStartFailed),
        21 => Ok(DeviceStateReason::AutoipError),
        22 => Ok(DeviceStateReason::AutoipFailed),
        23 => Ok(DeviceStateReason::ModemBusy),
        24 => Ok(DeviceStateReason::ModemNoDialTone),
        25 => Ok(DeviceStateReason::ModemNoCarrier),
        26 => Ok(DeviceStateReason::ModemDialTimeout),
        27 => Ok(DeviceStateReason::ModemDialFailed),
        28 => Ok(DeviceStateReason::ModemInitFailed),
        29 => Ok(DeviceStateReason::GsmApnFailed),
        30 => Ok(DeviceStateReason::GsmRegistrationNotSearching),
        31 => Ok(DeviceStateReason::GsmRegistrationDenied),
        32 => Ok(DeviceStateReason::GsmRegistrationTimeout),
        33 => Ok(DeviceStateReason::GsmRegistrationFailed),
        34 => Ok(DeviceStateReason::GsmPinCheckFailed),
        35 => Ok(DeviceStateReason::FirmwareMissing),
        36 => Ok(DeviceStateReason::Removed),
        37 => Ok(DeviceStateReason::Sleeping),
        38 => Ok(DeviceStateReason::ConnectionRemoved),
        39 => Ok(DeviceStateReason::UserRequested),
        40 => Ok(DeviceStateReason::Carrier),
        41 => Ok(DeviceStateReason::ConnectionAssumed),
        42 => Ok(DeviceStateReason::SupplicantAvailable),
        43 => Ok(DeviceStateReason::ModemNotFound),
        44 => Ok(DeviceStateReason::BtFailed),
        45 => Ok(DeviceStateReason::GsmSimNotInserted),
        46 => Ok(DeviceStateReason::GsmSimPinRequired),
        47 => Ok(DeviceStateReason::GsmSimPukRequired),
        48 => Ok(DeviceStateReason::GsmSimWrong),
        49 => Ok(DeviceStateReason::InfinibandMode),
        50 => Ok(DeviceStateReason::DependencyFailed),
        51 => Ok(DeviceStateReason::Br2684Failed),
        52 => Ok(DeviceStateReason::ModemManagerUnavailable),
        53 => Ok(DeviceStateReason::SsidNotFound),
        54 => Ok(DeviceStateReason::SecondaryConnectionFailed),
        55 => Ok(DeviceStateReason::DcbFcoeFailed),
        56 => Ok(DeviceStateReason::TeamdControlFailed),
        57 => Ok(DeviceStateReason::ModemFailed),
        58 => Ok(DeviceStateReason::ModemAvailable),
        59 => Ok(DeviceStateReason::SimPinIncorrect),
        60 => Ok(DeviceStateReason::NewActivation),
        61 => Ok(DeviceStateReason::ParentChanged),
        62 => Ok(DeviceStateReason::ParentManagedChanged),
        63 => Ok(DeviceStateReason::OvsdbFailed),
        64 => Ok(DeviceStateReason::IpAddressDuplicate),
        65 => Ok(DeviceStateReason::IpMethodUnsupported),
        66 => Ok(DeviceStateReason::SriovConfigurationFailed),
        67 => Ok(DeviceStateReason::PeerNotFound),
        _ => Err(Error::UnsupportedType),
    }
}

impl DeviceStateReason {
    /// The wire code this variant stands for.
    pub fn code(&self) -> (c: u32)
        ensures
            c == spec_state_reason_code(*self),
    {
        match self {
            DeviceStateReason::NoReason => 0,
            DeviceStateReason::Unknown => 1,
            DeviceStateReason::NowManaged => 2,
            DeviceStateReason::NowUnmanaged => 3,
            DeviceStateReason::ConfigFailed => 4,
            DeviceStateReason::IpConfigUnavailable => 5,
            DeviceStateReason::IpConfigExpired => 6,
            DeviceStateReason::NoSecrets => 7,
            DeviceStateReason::SupplicantDisconnect => 8,
            DeviceStateReason::SupplicantConfigFailed => 9,
            DeviceStateReason::SupplicantFailed => 10,
            DeviceStateReason::SupplicantTimeout => 11,
            DeviceStateReason::PppStartFailed => 12,
            DeviceStateReason::PppDisconnect => 13,
            DeviceStateReason::PppFailed => 14,
            DeviceStateReason::DhcpStartFailed => 15,
            DeviceStateReason::DhcpError => 16,
            DeviceStateReason::DhcpFailed => 17,
            DeviceStateReason::SharedStartFailed => 18,
            DeviceStateReason::SharedFailed => 19,
            DeviceStateReason::AutoipStartFailed => 20,
            DeviceStateReason::AutoipError => 21,
            DeviceStateReason::AutoipFailed => 22,
            DeviceStateReason::ModemBusy => 23,
            DeviceStateReason::ModemNoDialTone => 24,
            DeviceStateReason::ModemNoCarrier => 25,
            DeviceStateReason::ModemDialTimeout => 26,
            DeviceStateReason::ModemDialFailed => 27,
            DeviceStateReason::ModemInitFailed => 28,
            DeviceStateReason::GsmApnFailed => 29,
            DeviceStateReason::GsmRegistrationNotSearching => 30,
            DeviceStateReason::GsmRegistrationDenied => 31,
            DeviceStateReason::GsmRegistrationTimeout => 32,
            DeviceStateReason::GsmRegistrationFailed => 33,
            DeviceStateReason::GsmPinCheckFailed => 34,
            DeviceStateReason::FirmwareMissing => 35,
            DeviceStateReason::Removed => 36,
            DeviceStateReason::Sleeping => 37,
            DeviceStateReason::ConnectionRemoved => 38,
            DeviceStateReason::UserRequested => 39,
            DeviceStateReason::Carrier => 40,
            DeviceStateReason::ConnectionAssumed => 41,
            DeviceStateReason::SupplicantAvailable => 42,
            DeviceStateReason::ModemNotFound => 43,
            DeviceStateReason::BtFailed => 44,
            DeviceStateReason::GsmSimNotInserted => 45,
            DeviceStateReason::GsmSimPinRequired => 46,
            DeviceStateReason::GsmSimPukRequired => 47,
            DeviceStateReason::GsmSimWrong => 48,
            DeviceStateReason::InfinibandMode => 49,
            DeviceStateReason::DependencyFailed => 50,
            DeviceStateReason::Br2684Failed => 51,
            DeviceStateReason::ModemManagerUnavailable => 52,
            DeviceStateReason::SsidNotFound => 53,
            DeviceStateReason::SecondaryConnectionFailed => 54,
            DeviceStateReason::DcbFcoeFailed => 55,
            DeviceStateReason::TeamdControlFailed => 56,
            DeviceStateReason::ModemFailed => 57,
            DeviceStateReason::ModemAvailable => 58,
            DeviceStateReason::SimPinIncorrect => 59,
            DeviceStateReason::NewActivation => 60,
            DeviceStateReason::ParentChanged => 61,
            DeviceStateReason::ParentManagedChanged => 62,
            DeviceStateReason::OvsdbFailed => 63,
            DeviceStateReason::IpAddressDuplicate => 64,
            DeviceStateReason::IpMethodUnsupported => 65,
            DeviceStateReason::SriovConfigurationFailed => 66,
            DeviceStateReason::PeerNotFound => 67,
        }
    }
}

/// The result of the service's last connectivity check.
#[derive(Clone, Copy, Debug, PartialEq, Eq, Structural)]
pub enum ConnectivityState {
    /// Connectivity is unknown: checks are disabled or have not run yet.
    Unknown,
    /// The host is not connected to any network.
    NoConnectivity,
    /// The host is behind a captive portal and cannot reach the full internet.
    Portal,
    /// The host is connected to a network, but has no access to the internet.
    Limited,
    /// The host is connected and reaches the full internet.
    Full,
}

/// The closed wire table of [`ConnectivityState`]: the variant a code denotes,
/// or nothing when the code is outside the known enumeration.
pub open spec fn spec_connectivity_state_from_code(code: u32) -> Option<ConnectivityState> {
    if code == 0 {
        Option::Some(ConnectivityState::Unknown)
    } else if code == 1 {
        Option::Some(ConnectivityState::NoConnectivity)
    } else if code == 2 {
        Option::Some(ConnectivityState::Portal)
    } else if code == 3 {
        Option::Some(ConnectivityState::Limited)
    } else if code == 4 {
        Option::Some(ConnectivityState::Full)
    } else {
        Option::None
    }
}

/// The wire code of each [`ConnectivityState`] variant.
pub open spec fn spec_connectivity_state_code(t: ConnectivityState) -> u32 {
    match t {
        ConnectivityState::Unknown => 0,
        ConnectivityState::NoConnectivity => 1,
        ConnectivityState::Portal => 2,
        ConnectivityState::Limited => 3,
        ConnectivityState::Full => 4,
    }
}

/// Classify a wire code as a [`ConnectivityState`].
///
/// A code outside the known enumeration is [`Error::UnsupportedType`],
/// never a guessed variant: callers can detect protocol drift when the
/// service adds enumeration members this client does not know.
pub fn connectivity_state_from_code(code: u32) -> (r: Result<ConnectivityState, Error>)
    ensures
        r == (match spec_connectivity_state_from_code(code) {
            Option::Some(t) => Result::<ConnectivityState, Error>::Ok(t),
            Option::None => Result::<ConnectivityState, Error>::Err(Error::UnsupportedType),
        }),
{
    match code {
        0 => Ok(ConnectivityState::Unknown),
        1 => Ok(ConnectivityState::NoConnectivity),
        2 => Ok(ConnectivityState::Portal),
        3 => Ok(ConnectivityState::Limited),
        4 => Ok(ConnectivityState::Full),
        _ => Err(Error::UnsupportedType),
    }
}

impl ConnectivityState {
    /// The wire code this variant stands for.
    pub fn code(&self) -> (c: u32)
        ensures
            c == spec_connectivity_state_code(*self),
    {
        match self {
            ConnectivityState::Unknown => 0,
            ConnectivityState::NoConnectivity => 1,
            ConnectivityState::Portal => 2,
            ConnectivityState::Limited => 3,
            ConnectivityState::Full => 4,
        }
    }
}

/// Whether a device's traffic is subject to limitations or costs.
/// Determined by the active profile; when the profile leaves the choice
/// open the service guesses, which the guessed variants record.
#[derive(Clone, Copy, Debug, PartialEq, Eq, Structural)]
pub enum MeteredStatus {
    /// The metered state is unknown.
    Unknown,
    /// The connection is metered and the value was set explicitly.
    Yes,
    /// The connection is not metered and the value was set explicitly.
    No,
    /// The connection is metered; the value was guessed.
    GuessYes,
    /// The connection is not metered; the value was guessed.
    GuessNo,
}

/// The closed wire table of [`MeteredStatus`]: the variant a code denotes,
/// or nothing when the code is outside the known enumeration.
pub open spec fn spec_metered_status_from_code(code: u32) -> Option<MeteredStatus> {
    if code == 0 {
        Option::Some(MeteredStatus::Unknown)
    } else if code == 1 {
        Option::Some(MeteredStatus::Yes)
    } else if code == 2 {
        Option::Some(MeteredStatus::No)
    } else if code == 3 {
        Option::Some(MeteredStatus::GuessYes)
    } else if code == 4 {
        Option::Some(MeteredStatus::GuessNo)
    } else {
        Option::None
    }
}

/// The wire code of each [`MeteredStatus`] variant.
pub open spec fn spec_metered_status_code(t: MeteredStatus) -> u32 {
    match t {
        MeteredStatus::Unknown => 0,
        MeteredStatus::Yes => 1,
        MeteredStatus::No => 2,
        MeteredStatus::GuessYes => 3,
        MeteredStatus::GuessNo => 4,
    }
}

/// Classify a wire code as a [`MeteredStatus`].
///
/// A code outside the known enumeration is [`Error::UnsupportedType`],
/// never a guessed variant: callers can detect protocol drift when the
/// service adds enumeration members this client does not know.
pub fn metered_status_from_code(code: u32) -> (r: Result<MeteredStatus, Error>)
    ensures
        r == (match spec_metered_status_from_code(code) {
            Option::Some(t) => Result::<MeteredStatus, Error>::Ok(t),
            Option::None => Result::<MeteredStatus, Error>::Err(Error::UnsupportedType),
        }),
{
    match code {
        0 => Ok(MeteredStatus::Unknown),
        1 => Ok(MeteredStatus::Yes),
        2 => Ok(MeteredStatus::No),
        3 => Ok(MeteredStatus::GuessYes),
        4 => Ok(MeteredStatus::GuessNo),
        _ => Err(Error::UnsupportedType),
    }
}

impl MeteredStatus {
    /// The wire code this variant stands for.
    pub fn code(&self) -> (c: u32)
        ensures
            c == spec_metered_status_code(*self),
    {
        match self {
            MeteredStatus::Unknown => 0,
            MeteredStatus::Yes => 1,
            MeteredStatus::No => 2,
            MeteredStatus::GuessYes => 3,
            MeteredStatus::GuessNo => 4,
        }
    }
}

/// The operating mode of a wireless device.
#[derive(Clone, Copy, Debug, PartialEq, Eq, Structural)]
pub enum WirelessClientMode {
    /// The mode is unknown.
    Unknown,
    /// Part of an ad-hoc network, without a central coordinator.
    Adhoc,
    /// Part of an infrastructure network, coordinated by an access point.
    Infrastructure,
    /// Acting as the access point of an infrastructure network.
    AccessPoint,
    /// Part of an 802.11s mesh network.
    Mesh,
}

/// The closed wire table of [`WirelessClientMode`]: the variant a code denotes,
/// or nothing when the code is outside the known enumeration.
pub open spec fn spec_wireless_client_mode_from_code(code: u32) -> Option<WirelessClientMode> {
    if code == 0 {
        Option::Some(WirelessClientMode::Unknown)
    } else if code == 1 {
        Option::Some(WirelessClientMode::Adhoc)
    } else if code == 2 {
        Option::Some(WirelessClientMode::Infrastructure)
    } else if code == 3 {
        Option::Some(WirelessClientMode::AccessPoint)
    } else if code == 4 {
        Option::Some(WirelessClientMode::Mesh)
    } else {
        Option::None
    }
}

/// The wire code of each [`WirelessClientMode`] variant.
pub open spec fn spec_wireless_client_mode_code(t: WirelessClientMode) -> u32 {
    match t {
        WirelessClientMode::Unknown => 0,
        WirelessClientMode::Adhoc => 1,
        WirelessClientMode::Infrastructure => 2,
        WirelessClientMode::AccessPoint => 3,
        WirelessClientMode::Mesh => 4,
    }
}

/// Classify a wire code as a [`WirelessClientMode`].
///
/// A code outside the known enumeration is [`Error::UnsupportedType`],
/// never a guessed variant: callers can detect protocol drift when the
/// service adds enumeration members this client does not know.
pub fn wireless_client_mode_from_code(code: u32) -> (r: Result<WirelessClientMode, Error>)
    ensures
        r == (match spec_wireless_client_mode_from_code(code) {
            Option::Some(t) => Result::<WirelessClientMode, Error>::Ok(t),
            Option::None => Result::<WirelessClientMode, Error>::Err(Error::UnsupportedType),
        }),
{
    match code {
        0 => Ok(WirelessClientMode::Unknown),
        1 => Ok(WirelessClientMode::Adhoc),
        2 => Ok(WirelessClientMode::Infrastructure),
        3 => Ok(WirelessClientMode::AccessPoint),
        4 => Ok(WirelessClientMode::Mesh),
        _ => Err(Error::UnsupportedType),
    }
}

impl WirelessClientMode {
    /// The wire code this variant stands for.
    pub fn code(&self) -> (c: u32)
        ensures
            c == spec_wireless_client_mode_code(*self),
    {
        match self {
            WirelessClientMode::Unknown => 0,
            WirelessClientMode::Adhoc => 1,
            WirelessClientMode::Infrastructure => 2,
            WirelessClientMode::AccessPoint => 3,
            WirelessClientMode::Mesh => 4,
        }
    }
}

/// The operating mode of an access point.
#[derive(Clone, Copy, Debug, PartialEq, Eq, Structural)]
pub enum AccessPointMode {
    /// The mode is unknown.
    Unknown,
    /// Part of an ad-hoc network, without a central coordinator.
    Adhoc,
    /// Part of an infrastructure network, coordinated by an access point.
    Infrastructure,
    /// Acting as the access point of an infrastructure network.
    AccessPoint,
    /// Part of an 802.11s mesh network.
    Mesh,
}

/// The closed wire table of [`AccessPointMode`]: the variant a code denotes,
/// or nothing when the code is outside the known enumeration.
pub open spec fn spec_access_point_mode_from_code(code: u32) -> Option<AccessPointMode> {
    if code == 0 {
        Option::Some(AccessPointMode::Unknown)
    } else if code == 1 {
        Option::Some(AccessPointMode::Adhoc)
    } else if code == 2 {
        Option::Some(AccessPointMode::Infrastructure)
    } else if code == 3 {
        Option::Some(AccessPointMode::AccessPoint)
    } else if code == 4 {
        Option::Some(AccessPointMode::Mesh)
    } else {
        Option::None
    }
}

/// The wire code of each [`AccessPointMode`] variant.
pub open spec fn spec_access_point_mode_code(t: AccessPointMode) -> u32 {
    match t {
        AccessPointMode::Unknown => 0,
        AccessPointMode::Adhoc => 1,
        AccessPointMode::Infrastructure => 2,
        AccessPointMode::AccessPoint => 3,
        AccessPointMode::Mesh => 4,
    }
}

/// Classify a wire code as a [`AccessPointMode`].
///
/// A code outside the known enumeration is [`Error::UnsupportedType`],
/// never a guessed variant: callers can detect protocol drift when the
/// service adds enumeration members this client does not know.
pub fn access_point_mode_from_code(code: u32) -> (r: Result<AccessPointMode, Error>)
    ensures
        r == (match spec_access_point_mode_from_code(code) {
            Option::Some(t) => Result::<AccessPointMode, Error>::Ok(t),
            Option::None => Result::<AccessPointMode, Error>::Err(Error::UnsupportedType),
        }),
{
    match code {
        0 => Ok(AccessPointMode::Unknown),
        1 => Ok(AccessPointMode::Adhoc),
        2 => Ok(AccessPointMode::Infrastructure),
        3 => Ok(AccessPointMode::AccessPoint),
        4 => Ok(AccessPointMode::Mesh),
        _ => Err(Error::UnsupportedType),
    }
}

impl AccessPointMode {
    /// The wire code this variant stands for.
    pub fn code(&self) -> (c: u32)
        ensures
            c == spec_access_point_mode_code(*self),
    {
        match self {
            AccessPointMode::Unknown => 0,
            AccessPointMode::Adhoc => 1,
            AccessPointMode::Infrastructure => 2,
            AccessPointMode::AccessPoint => 3,
            AccessPointMode::Mesh => 4,
        }
    }
}

/// Classification is total on the table and rejects everything else: a code
/// denotes no [`DeviceType`] variant exactly when no variant carries that
/// code.
pub proof fn lemma_device_type_table_complete(code: u32)
    ensures
        spec_device_type_from_code(code) is None <==> (forall|t: DeviceType|
            spec_device_type_code(t) != code),
{
    if spec_device_type_from_code(code) is None {
        assert forall|t: DeviceType| spec_device_type_code(t) != code by {
            lemma_device_type_round_trip(t);
        }
    } else {
        let witness = spec_device_type_from_code(code)->Some_0;
        assert(spec_device_type_code(witness) == code);
    }
}

/// Every variant's wire code classifies back to that variant.
pub proof fn lemma_device_type_round_trip(t: DeviceType)
    ensures
        spec_device_type_from_code(spec_device_type_code(t)) == Option::Some(t),
{
}

} // verus!
