//! Values of the networking API.
use vstd::prelude::*;

verus! {

/// A networking configuration setting.
#[derive(Clone, Copy, Debug, PartialEq, Eq, Structural)]
pub enum XNetworkingConfigurationSetting {
    MaxTitleTcpQueuedReceiveBufferSize,
    MaxSystemTcpQueuedReceiveBufferSize,
    MaxToolsTcpQueuedReceiveBufferSize,
}

/// The numeric values of `XNetworkingConfigurationSetting` that the ABI
/// fixes: `MaxTitleTcpQueuedReceiveBufferSize` is 0,
/// `MaxSystemTcpQueuedReceiveBufferSize` is 1,
/// `MaxToolsTcpQueuedReceiveBufferSize` is 2.
/// Each value belongs to one variant only.
pub proof fn law_x_networking_configuration_setting_abi_values(m: XNetworkingConfigurationSetting)
    ensures
        (m.spec_value() == 0u32) <==> (m == XNetworkingConfigurationSetting::MaxTitleTcpQueuedReceiveBufferSize),
        (m.spec_value() == 1u32) <==> (m == XNetworkingConfigurationSetting::MaxSystemTcpQueuedReceiveBufferSize),
        (m.spec_value() == 2u32) <==> (m == XNetworkingConfigurationSetting::MaxToolsTcpQueuedReceiveBufferSize),
{
}

impl XNetworkingConfigurationSetting {
    /// The value that stands for it in the runtime's ABI.
    pub open spec fn spec_value(self) -> u32 {
        match self {
            XNetworkingConfigurationSetting::MaxTitleTcpQueuedReceiveBufferSize => 0,
            XNetworkingConfigurationSetting::MaxSystemTcpQueuedReceiveBufferSize => 1,
            XNetworkingConfigurationSetting::MaxToolsTcpQueuedReceiveBufferSize => 2,
        }
    }

    /// Whether `v` stands for a variant.
    pub open spec fn spec_is_value(v: u32) -> bool {
        v == 0 || v == 1 || v == 2
    }

    /// Returns the value that stands for it in the runtime's ABI.
    pub fn value(&self) -> (v: u32)
        ensures
            v == self.spec_value(),
    {
        match self {
            XNetworkingConfigurationSetting::MaxTitleTcpQueuedReceiveBufferSize => 0,
            XNetworkingConfigurationSetting::MaxSystemTcpQueuedReceiveBufferSize => 1,
            XNetworkingConfigurationSetting::MaxToolsTcpQueuedReceiveBufferSize => 2,
        }
    }

    /// Returns the variant that `v` stands for, if there is one.
    pub fn from_value(v: u32) -> (r: Option<XNetworkingConfigurationSetting>)
        ensures
            r matches Some(e) ==> e.spec_value() == v,
            r is None <==> !XNetworkingConfigurationSetting::spec_is_value(v),
    {
        if v == 0 {
            Some(XNetworkingConfigurationSetting::MaxTitleTcpQueuedReceiveBufferSize)
        } else if v == 1 {
            Some(XNetworkingConfigurationSetting::MaxSystemTcpQueuedReceiveBufferSize)
        } else if v == 2 {
            Some(XNetworkingConfigurationSetting::MaxToolsTcpQueuedReceiveBufferSize)
        } else {
            None
        }
    }
}
/// What the connection costs.
#[derive(Clone, Copy, Debug, PartialEq, Eq, Structural)]
pub enum XNetworkingConnectivityCostHint {
    Unknown,
    Unrestricted,
    Fixed,
    Variable,
}

/// The numeric values of `XNetworkingConnectivityCostHint` that the ABI
/// fixes: `Unknown` is 0, `Unrestricted` is 1, `Fixed` is 2, `Variable` is 3.
/// Each value belongs to one variant only.
pub proof fn law_x_networking_connectivity_cost_hint_abi_values(m: XNetworkingConnectivityCostHint)
    ensures
        (m.spec_value() == 0u32) <==> (m == XNetworkingConnectivityCostHint::Unknown),
        (m.spec_value() == 1u32) <==> (m == XNetworkingConnectivityCostHint::Unrestricted),
        (m.spec_value() == 2u32) <==> (m == XNetworkingConnectivityCostHint::Fixed),
        (m.spec_value() == 3u32) <==> (m == XNetworkingConnectivityCostHint::Variable),
{
}

impl XNetworkingConnectivityCostHint {
    /// The value that stands for it in the runtime's ABI.
    pub open spec fn spec_value(self) -> u32 {
        match self {
            XNetworkingConnectivityCostHint::Unknown => 0,
            XNetworkingConnectivityCostHint::Unrestricted => 1,
            XNetworkingConnectivityCostHint::Fixed => 2,
            XNetworkingConnectivityCostHint::Variable => 3,
        }
    }

    /// Whether `v` stands for a variant.
    pub open spec fn spec_is_value(v: u32) -> bool {
        v == 0 || v == 1 || v == 2 || v == 3
    }

    /// Returns the value that stands for it in the runtime's ABI.
    pub fn value(&self) -> (v: u32)
        ensures
            v == self.spec_value(),
    {
        match self {
            XNetworkingConnectivityCostHint::Unknown => 0,
            XNetworkingConnectivityCostHint::Unrestricted => 1,
            XNetworkingConnectivityCostHint::Fixed => 2,
            XNetworkingConnectivityCostHint::Variable => 3,
        }
    }

    /// Returns the variant that `v` stands for, if there is one.
    pub fn from_value(v: u32) -> (r: Option<XNetworkingConnectivityCostHint>)
        ensures
            r matches Some(e) ==> e.spec_value() == v,
            r is None <==> !XNetworkingConnectivityCostHint::spec_is_value(v),
    {
        if v == 0 {
            Some(XNetworkingConnectivityCostHint::Unknown)
        } else if v == 1 {
            Some(XNetworkingConnectivityCostHint::Unrestricted)
        } else if v == 2 {
            Some(XNetworkingConnectivityCostHint::Fixed)
        } else if v == 3 {
            Some(XNetworkingConnectivityCostHint::Variable)
        } else {
            None
        }
    }
}
/// How connected the device is.
#[derive(Clone, Copy, Debug, PartialEq, Eq, Structural)]
pub enum XNetworkingConnectivityLevelHint {
    Unknown,
    /// No connectivity (the ABI's `None`).
    NoConnectivity,
    LocalAccess,
    InternetAccess,
    ConstrainedInternetAccess,
}

/// The numeric values of `XNetworkingConnectivityLevelHint` that the ABI
/// fixes: `Unknown` is 0, `NoConnectivity` is 1, `LocalAccess` is 2,
/// `InternetAccess` is 3, `ConstrainedInternetAccess` is 4.
/// Each value belongs to one variant only.
pub proof fn law_x_networking_connectivity_level_hint_abi_values(m: XNetworkingConnectivityLevelHint)
    ensures
        (m.spec_value() == 0u32) <==> (m == XNetworkingConnectivityLevelHint::Unknown),
        (m.spec_value() == 1u32) <==> (m == XNetworkingConnectivityLevelHint::NoConnectivity),
        (m.spec_value() == 2u32) <==> (m == XNetworkingConnectivityLevelHint::LocalAccess),
        (m.spec_value() == 3u32) <==> (m == XNetworkingConnectivityLevelHint::InternetAccess),
        (m.spec_value() == 4u32) <==> (m == XNetworkingConnectivityLevelHint::ConstrainedInternetAccess),
{
}

impl XNetworkingConnectivityLevelHint {
    /// The value that stands for it in the runtime's ABI.
    pub open spec fn spec_value(self) -> u32 {
        match self {
            XNetworkingConnectivityLevelHint::Unknown => 0,
            XNetworkingConnectivityLevelHint::NoConnectivity => 1,
            XNetworkingConnectivityLevelHint::LocalAccess => 2,
            XNetworkingConnectivityLevelHint::InternetAccess => 3,
            XNetworkingConnectivityLevelHint::ConstrainedInternetAccess => 4,
        }
    }

    /// Whether `v` stands for a variant.
    pub open spec fn spec_is_value(v: u32) -> bool {
        v == 0 || v == 1 || v == 2 || v == 3 || v == 4
    }

    /// Returns the value that stands for it in the runtime's ABI.
    pub fn value(&self) -> (v: u32)
        ensures
            v == self.spec_value(),
    {
        match self {
            XNetworkingConnectivityLevelHint::Unknown => 0,
            XNetworkingConnectivityLevelHint::NoConnectivity => 1,
            XNetworkingConnectivityLevelHint::LocalAccess => 2,
            XNetworkingConnectivityLevelHint::InternetAccess => 3,
            XNetworkingConnectivityLevelHint::ConstrainedInternetAccess => 4,
        }
    }

    /// Returns the variant that `v` stands for, if there is one.
    pub fn from_value(v: u32) -> (r: Option<XNetworkingConnectivityLevelHint>)
        ensures
            r matches Some(e) ==> e.spec_value() == v,
            r is None <==> !XNetworkingConnectivityLevelHint::spec_is_value(v),
    {
        if v == 0 {
            Some(XNetworkingConnectivityLevelHint::Unknown)
        } else if v == 1 {
            Some(XNetworkingConnectivityLevelHint::NoConnectivity)
        } else if v == 2 {
            Some(XNetworkingConnectivityLevelHint::LocalAccess)
        } else if v == 3 {
            Some(XNetworkingConnectivityLevelHint::InternetAccess)
        } else if v == 4 {
            Some(XNetworkingConnectivityLevelHint::ConstrainedInternetAccess)
        } else {
            None
        }
    }
}
/// Which networking statistics are asked for.
#[derive(Clone, Copy, Debug, PartialEq, Eq, Structural)]
pub enum XNetworkingStatisticsType {
    TitleTcpQueuedReceivedBufferUsage,
    SystemTcpQueuedReceivedBufferUsage,
    ToolsTcpQueuedReceivedBufferUsage,
}

/// The numeric values of `XNetworkingStatisticsType` that the ABI fixes:
/// `TitleTcpQueuedReceivedBufferUsage` is 0,
/// `SystemTcpQueuedReceivedBufferUsage` is 1,
/// `ToolsTcpQueuedReceivedBufferUsage` is 2.
/// Each value belongs to one variant only.
pub proof fn law_x_networking_statistics_type_abi_values(m: XNetworkingStatisticsType)
    ensures
        (m.spec_value() == 0u32) <==> (m == XNetworkingStatisticsType::TitleTcpQueuedReceivedBufferUsage),
        (m.spec_value() == 1u32) <==> (m == XNetworkingStatisticsType::SystemTcpQueuedReceivedBufferUsage),
        (m.spec_value() == 2u32) <==> (m == XNetworkingStatisticsType::ToolsTcpQueuedReceivedBufferUsage),
{
}

impl XNetworkingStatisticsType {
    /// The value that stands for it in the runtime's ABI.
    pub open spec fn spec_value(self) -> u32 {
        match self {
            XNetworkingStatisticsType::TitleTcpQueuedReceivedBufferUsage => 0,
            XNetworkingStatisticsType::SystemTcpQueuedReceivedBufferUsage => 1,
            XNetworkingStatisticsType::ToolsTcpQueuedReceivedBufferUsage => 2,
        }
    }

    /// Whether `v` stands for a variant.
    pub open spec fn spec_is_value(v: u32) -> bool {
        v == 0 || v == 1 || v == 2
    }

    /// Returns the value that stands for it in the runtime's ABI.
    pub fn value(&self) -> (v: u32)
        ensures
            v == self.spec_value(),
    {
        match self {
            XNetworkingStatisticsType::TitleTcpQueuedReceivedBufferUsage => 0,
            XNetworkingStatisticsType::SystemTcpQueuedReceivedBufferUsage => 1,
            XNetworkingStatisticsType::ToolsTcpQueuedReceivedBufferUsage => 2,
        }
    }

    /// Returns the variant that `v` stands for, if there is one.
    pub fn from_value(v: u32) -> (r: Option<XNetworkingStatisticsType>)
        ensures
            r matches Some(e) ==> e.spec_value() == v,
            r is None <==> !XNetworkingStatisticsType::spec_is_value(v),
    {
        if v == 0 {
            Some(XNetworkingStatisticsType::TitleTcpQueuedReceivedBufferUsage)
        } else if v == 1 {
            Some(XNetworkingStatisticsType::SystemTcpQueuedReceivedBufferUsage)
        } else if v == 2 {
            Some(XNetworkingStatisticsType::ToolsTcpQueuedReceivedBufferUsage)
        } else {
            None
        }
    }
}
/// Which certificate of a chain a thumbprint is of.
#[derive(Clone, Copy, Debug, PartialEq, Eq, Structural)]
pub enum XNetworkingThumbprintType {
    Leaf,
    Issuer,
    Root,
}

/// The numeric values of `XNetworkingThumbprintType` that the ABI fixes:
/// `Leaf` is 0, `Issuer` is 1, `Root` is 2.
/// Each value belongs to one variant only.
pub proof fn law_x_networking_thumbprint_type_abi_values(m: XNetworkingThumbprintType)
    ensures
        (m.spec_value() == 0u32) <==> (m == XNetworkingThumbprintType::Leaf),
        (m.spec_value() == 1u32) <==> (m == XNetworkingThumbprintType::Issuer),
        (m.spec_value() == 2u32) <==> (m == XNetworkingThumbprintType::Root),
{
}

impl XNetworkingThumbprintType {
    /// The value that stands for it in the runtime's ABI.
    pub open spec fn spec_value(self) -> u32 {
        match self {
            XNetworkingThumbprintType::Leaf => 0,
            XNetworkingThumbprintType::Issuer => 1,
            XNetworkingThumbprintType::Root => 2,
        }
    }

    /// Whether `v` stands for a variant.
    pub open spec fn spec_is_value(v: u32) -> bool {
        v == 0 || v == 1 || v == 2
    }

    /// Returns the value that stands for it in the runtime's ABI.
    pub fn value(&self) -> (v: u32)
        ensures
            v == self.spec_value(),
    {
        match self {
            XNetworkingThumbprintType::Leaf => 0,
            XNetworkingThumbprintType::Issuer => 1,
            XNetworkingThumbprintType::Root => 2,
        }
    }

    /// Returns the variant that `v` stands for, if there is one.
    pub fn from_value(v: u32) -> (r: Option<XNetworkingThumbprintType>)
        ensures
            r matches Some(e) ==> e.spec_value() == v,
            r is None <==> !XNetworkingThumbprintType::spec_is_value(v),
    {
        if v == 0 {
            Some(XNetworkingThumbprintType::Leaf)
        } else if v == 1 {
            Some(XNetworkingThumbprintType::Issuer)
        } else if v == 2 {
            Some(XNetworkingThumbprintType::Root)
        } else {
            None
        }
    }
}
/// The connectivity that the networking object reports.
#[derive(Clone, Copy, Debug, PartialEq, Eq, Structural)]
pub struct XNetworkingConnectivityHint {
    pub connectivity_level: XNetworkingConnectivityLevelHint,
    pub connectivity_cost: XNetworkingConnectivityCostHint,
    pub iana_interface_type: u32,
    pub network_initialized: bool,
    pub approaching_data_limit: bool,
    pub over_data_limit: bool,
    pub roaming: bool,
}

/// The hint reported always: internet access over an unrestricted Ethernet
/// (IANA type 6) link, initialized, within its data limits, not roaming.
pub open spec fn spec_connectivity_hint() -> XNetworkingConnectivityHint {
    XNetworkingConnectivityHint {
        connectivity_level: XNetworkingConnectivityLevelHint::InternetAccess,
        connectivity_cost: XNetworkingConnectivityCostHint::Unrestricted,
        iana_interface_type: 6,
        network_initialized: true,
        approaching_data_limit: false,
        over_data_limit: false,
        roaming: false,
    }
}

/// The HTTP security protocol flags reported for every URL: TLS 1.0, 1.1,
/// 1.2 and 1.3 (0x80 | 0x200 | 0x800 | 0x2000).
pub const SECURITY_PROTOCOL_FLAGS: u32 = 0x2A80;

/// A certificate thumbprint: its kind and bytes.
#[derive(Clone, Debug)]
pub struct XNetworkingThumbprint {
    pub thumbprint_type: XNetworkingThumbprintType,
    pub thumbprint_buffer_byte_count: usize,
    pub thumbprint_buffer: Vec<u8>,
}

/// The security information of a URL: the HTTP security protocols enabled,
/// the number of certificate thumbprints, and the address of the first of
/// them (`None` for a null address).
#[derive(Clone, Copy, Debug, PartialEq, Eq, Structural)]
pub struct XNetworkingSecurityInformation {
    pub enabled_http_security_protocol_flags: u32,
    pub thumbprint_count: usize,
    pub thumbprints: Option<u64>,
}

/// Usage statistics of a TCP queued receive buffer.
#[derive(Clone, Copy, Debug, PartialEq, Eq, Structural)]
pub struct XNetworkingTcpQueuedReceivedBufferUsageStatistics {
    pub num_bytes_currently_queued: u64,
    pub peak_num_bytes_ever_queued: u64,
    pub total_num_bytes_queued: u64,
    pub num_bytes_dropped_for_exceeding_configured_max: u64,
    pub num_bytes_dropped_due_to_any_failure: u64,
}

} // verus!
