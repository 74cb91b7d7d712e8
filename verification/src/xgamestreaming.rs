//! Values of the game streaming API.
use vstd::prelude::*;

verus! {

/// A frame pipeline token of the graphics API; it carries nothing here.
#[derive(Clone, Copy, Debug)]
pub struct D3d12xboxFramePipelineToken;

/// A game input reading; it carries nothing here.
#[derive(Clone, Copy, Debug)]
pub struct IGameInputReading;

/// A rectangle; it carries nothing here.
#[derive(Clone, Copy, Debug)]
pub struct RECT;

/// A property of a streaming client.
#[derive(Clone, Copy, Debug, PartialEq, Eq, Structural)]
pub enum XGameStreamingClientProperty {
    /// No property (the ABI's `None`).
    NoProperty,
    StreamPhysicalDimensions,
    TouchInputEnabled,
    TouchBundleVersion,
    IPAddress,
    SessionId,
    DisplayDetails,
}

/// The numeric values of `XGameStreamingClientProperty` that the ABI fixes:
/// `NoProperty` is 0, `StreamPhysicalDimensions` is 1, `TouchInputEnabled` is
/// 2, `TouchBundleVersion` is 4, `IPAddress` is 5, `SessionId` is 6,
/// `DisplayDetails` is 7.
/// Each value belongs to one variant only.
pub proof fn law_x_game_streaming_client_property_abi_values(m: XGameStreamingClientProperty)
    ensures
        (m.spec_value() == 0u32) <==> (m == XGameStreamingClientProperty::NoProperty),
        (m.spec_value() == 1u32) <==> (m == XGameStreamingClientProperty::StreamPhysicalDimensions),
        (m.spec_value() == 2u32) <==> (m == XGameStreamingClientProperty::TouchInputEnabled),
        (m.spec_value() == 4u32) <==> (m == XGameStreamingClientProperty::TouchBundleVersion),
        (m.spec_value() == 5u32) <==> (m == XGameStreamingClientProperty::IPAddress),
        (m.spec_value() == 6u32) <==> (m == XGameStreamingClientProperty::SessionId),
        (m.spec_value() == 7u32) <==> (m == XGameStreamingClientProperty::DisplayDetails),
{
}

impl XGameStreamingClientProperty {
    /// The value that stands for it in the runtime's ABI.
    pub open spec fn spec_value(self) -> u32 {
        match self {
            XGameStreamingClientProperty::NoProperty => 0,
            XGameStreamingClientProperty::StreamPhysicalDimensions => 1,
            XGameStreamingClientProperty::TouchInputEnabled => 2,
            XGameStreamingClientProperty::TouchBundleVersion => 4,
            XGameStreamingClientProperty::IPAddress => 5,
            XGameStreamingClientProperty::SessionId => 6,
            XGameStreamingClientProperty::DisplayDetails => 7,
        }
    }

    /// Whether `v` stands for a variant.
    pub open spec fn spec_is_value(v: u32) -> bool {
        v == 0 || v == 1 || v == 2 || v == 4 || v == 5 || v == 6 || v == 7
    }

    /// Returns the value that stands for it in the runtime's ABI.
    pub fn value(&self) -> (v: u32)
        ensures
            v == self.spec_value(),
    {
        match self {
            XGameStreamingClientProperty::NoProperty => 0,
            XGameStreamingClientProperty::StreamPhysicalDimensions => 1,
            XGameStreamingClientProperty::TouchInputEnabled => 2,
            XGameStreamingClientProperty::TouchBundleVersion => 4,
            XGameStreamingClientProperty::IPAddress => 5,
            XGameStreamingClientProperty::SessionId => 6,
            XGameStreamingClientProperty::DisplayDetails => 7,
        }
    }

    /// Returns the variant that `v` stands for, if there is one.
    pub fn from_value(v: u32) -> (r: Option<XGameStreamingClientProperty>)
        ensures
            r matches Some(e) ==> e.spec_value() == v,
            r is None <==> !XGameStreamingClientProperty::spec_is_value(v),
    {
        if v == 0 {
            Some(XGameStreamingClientProperty::NoProperty)
        } else if v == 1 {
            Some(XGameStreamingClientProperty::StreamPhysicalDimensions)
        } else if v == 2 {
            Some(XGameStreamingClientProperty::TouchInputEnabled)
        } else if v == 4 {
            Some(XGameStreamingClientProperty::TouchBundleVersion)
        } else if v == 5 {
            Some(XGameStreamingClientProperty::IPAddress)
        } else if v == 6 {
            Some(XGameStreamingClientProperty::SessionId)
        } else if v == 7 {
            Some(XGameStreamingClientProperty::DisplayDetails)
        } else {
            None
        }
    }
}
/// Whether a streaming client is connected.
#[derive(Clone, Copy, Debug, PartialEq, Eq, Structural)]
pub enum XGameStreamingConnectionState {
    Disconnected,
    Connected,
}

/// The numeric values of `XGameStreamingConnectionState` that the ABI fixes:
/// `Disconnected` is 0, `Connected` is 1.
/// Each value belongs to one variant only.
pub proof fn law_x_game_streaming_connection_state_abi_values(m: XGameStreamingConnectionState)
    ensures
        (m.spec_value() == 0u32) <==> (m == XGameStreamingConnectionState::Disconnected),
        (m.spec_value() == 1u32) <==> (m == XGameStreamingConnectionState::Connected),
{
}

impl XGameStreamingConnectionState {
    /// The value that stands for it in the runtime's ABI.
    pub open spec fn spec_value(self) -> u32 {
        match self {
            XGameStreamingConnectionState::Disconnected => 0,
            XGameStreamingConnectionState::Connected => 1,
        }
    }

    /// Whether `v` stands for a variant.
    pub open spec fn spec_is_value(v: u32) -> bool {
        v == 0 || v == 1
    }

    /// Returns the value that stands for it in the runtime's ABI.
    pub fn value(&self) -> (v: u32)
        ensures
            v == self.spec_value(),
    {
        match self {
            XGameStreamingConnectionState::Disconnected => 0,
            XGameStreamingConnectionState::Connected => 1,
        }
    }

    /// Returns the variant that `v` stands for, if there is one.
    pub fn from_value(v: u32) -> (r: Option<XGameStreamingConnectionState>)
        ensures
            r matches Some(e) ==> e.spec_value() == v,
            r is None <==> !XGameStreamingConnectionState::spec_is_value(v),
    {
        if v == 0 {
            Some(XGameStreamingConnectionState::Disconnected)
        } else if v == 1 {
            Some(XGameStreamingConnectionState::Connected)
        } else {
            None
        }
    }
}
/// Which gamepad controls of a streaming client are physical or virtual.
#[derive(Clone, Copy, Debug, PartialEq, Eq, Structural)]
pub enum XGameStreamingGamepadPhysicality {
    /// No control (the ABI's `None`).
    NoPhysicality,
    DPadUpPhysical,
    DPadDownPhysical,
    DPadLeftPhysical,
    DPadRightPhysical,
    MenuPhysical,
    ViewPhysical,
    LeftThumbstickPhysical,
    RightThumbstickPhysical,
    LeftShoulderPhysical,
    RightShoulderPhysical,
    APhysical,
    BPhysical,
    XPhysical,
    YPhysical,
    LeftTriggerPhysical,
    RightTriggerPhysical,
    LeftThumbstickXPhysical,
    LeftThumbstickYPhysical,
    RightThumbstickXPhysical,
    RightThumbstickYPhysical,
    ButtonsPhysical,
    AnalogsPhysical,
    AllPhysical,
    DPadUpVirtual,
    DPadDownVirtual,
    DPadLeftVirtual,
    DPadRightVirtual,
    MenuVirtual,
    ViewVirtual,
    LeftThumbstickVirtual,
    RightThumbstickVirtual,
    LeftShoulderVirtual,
    RightShoulderVirtual,
    AVirtual,
    BVirtual,
    XVirtual,
    YVirtual,
    LeftTriggerVirtual,
    RightTriggerVirtual,
    LeftThumbstickXVirtual,
    LeftThumbstickYVirtual,
    RightThumbstickXVirtual,
    RightThumbstickYVirtual,
    ButtonsVirtual,
    AnalogsVirtual,
    AllVirtual,
}

/// The numeric values of `XGameStreamingGamepadPhysicality` that the ABI
/// fixes: `NoPhysicality` is 0x0000000000000000, `DPadUpPhysical` is
/// 0x0000000000000001, `DPadDownPhysical` is 0x0000000000000002,
/// `DPadLeftPhysical` is 0x0000000000000004, `DPadRightPhysical` is
/// 0x0000000000000008, `MenuPhysical` is 0x0000000000000010, `ViewPhysical`
/// is 0x0000000000000020, `LeftThumbstickPhysical` is 0x0000000000000040,
/// `RightThumbstickPhysical` is 0x0000000000000080, `LeftShoulderPhysical` is
/// 0x0000000000000100, `RightShoulderPhysical` is 0x0000000000000200,
/// `APhysical` is 0x0000000000001000, `BPhysical` is 0x0000000000002000,
/// `XPhysical` is 0x0000000000004000, `YPhysical` is 0x0000000000008000,
/// `LeftTriggerPhysical` is 0x0000000000010000, `RightTriggerPhysical` is
/// 0x0000000000020000, `LeftThumbstickXPhysical` is 0x0000000000040000,
/// `LeftThumbstickYPhysical` is 0x0000000000080000,
/// `RightThumbstickXPhysical` is 0x0000000000100000,
/// `RightThumbstickYPhysical` is 0x0000000000200000, `ButtonsPhysical` is
/// 0x000000000000F3FF, `AnalogsPhysical` is 0x00000000003F0000, `AllPhysical`
/// is 0x00000000003FF3FF, `DPadUpVirtual` is 0x0000000100000000,
/// `DPadDownVirtual` is 0x0000000200000000, `DPadLeftVirtual` is
/// 0x0000000400000000, `DPadRightVirtual` is 0x0000000800000000,
/// `MenuVirtual` is 0x0000001000000000, `ViewVirtual` is 0x0000002000000000,
/// `LeftThumbstickVirtual` is 0x0000004000000000, `RightThumbstickVirtual` is
/// 0x0000008000000000, `LeftShoulderVirtual` is 0x0000010000000000,
/// `RightShoulderVirtual` is 0x0000020000000000, `AVirtual` is
/// 0x0000100000000000, `BVirtual` is 0x0000200000000000, `XVirtual` is
/// 0x0000400000000000, `YVirtual` is 0x0000800000000000, `LeftTriggerVirtual`
/// is 0x0001000000000000, `RightTriggerVirtual` is 0x0002000000000000,
/// `LeftThumbstickXVirtual` is 0x0004000000000000, `LeftThumbstickYVirtual`
/// is 0x0008000000000000, `RightThumbstickXVirtual` is 0x0010000000000000,
/// `RightThumbstickYVirtual` is 0x0020000000000000, `ButtonsVirtual` is
/// 0x0000F3FF00000000, `AnalogsVirtual` is 0x003F000000000000, `AllVirtual`
/// is 0x003FF3FF00000000.
/// Each value belongs to one variant only.
pub proof fn law_x_game_streaming_gamepad_physicality_abi_values(m: XGameStreamingGamepadPhysicality)
    ensures
        (m.spec_value() == 0x0000000000000000u64) <==> (m == XGameStreamingGamepadPhysicality::NoPhysicality),
        (m.spec_value() == 0x0000000000000001u64) <==> (m == XGameStreamingGamepadPhysicality::DPadUpPhysical),
        (m.spec_value() == 0x0000000000000002u64) <==> (m == XGameStreamingGamepadPhysicality::DPadDownPhysical),
        (m.spec_value() == 0x0000000000000004u64) <==> (m == XGameStreamingGamepadPhysicality::DPadLeftPhysical),
        (m.spec_value() == 0x0000000000000008u64) <==> (m == XGameStreamingGamepadPhysicality::DPadRightPhysical),
        (m.spec_value() == 0x0000000000000010u64) <==> (m == XGameStreamingGamepadPhysicality::MenuPhysical),
        (m.spec_value() == 0x0000000000000020u64) <==> (m == XGameStreamingGamepadPhysicality::ViewPhysical),
        (m.spec_value() == 0x0000000000000040u64) <==> (m == XGameStreamingGamepadPhysicality::LeftThumbstickPhysical),
        (m.spec_value() == 0x0000000000000080u64) <==> (m == XGameStreamingGamepadPhysicality::RightThumbstickPhysical),
        (m.spec_value() == 0x0000000000000100u64) <==> (m == XGameStreamingGamepadPhysicality::LeftShoulderPhysical),
        (m.spec_value() == 0x0000000000000200u64) <==> (m == XGameStreamingGamepadPhysicality::RightShoulderPhysical),
        (m.spec_value() == 0x0000000000001000u64) <==> (m == XGameStreamingGamepadPhysicality::APhysical),
        (m.spec_value() == 0x0000000000002000u64) <==> (m == XGameStreamingGamepadPhysicality::BPhysical),
        (m.spec_value() == 0x0000000000004000u64) <==> (m == XGameStreamingGamepadPhysicality::XPhysical),
        (m.spec_value() == 0x0000000000008000u64) <==> (m == XGameStreamingGamepadPhysicality::YPhysical),
        (m.spec_value() == 0x0000000000010000u64) <==> (m == XGameStreamingGamepadPhysicality::LeftTriggerPhysical),
        (m.spec_value() == 0x0000000000020000u64) <==> (m == XGameStreamingGamepadPhysicality::RightTriggerPhysical),
        (m.spec_value() == 0x0000000000040000u64) <==> (m == XGameStreamingGamepadPhysicality::LeftThumbstickXPhysical),
        (m.spec_value() == 0x0000000000080000u64) <==> (m == XGameStreamingGamepadPhysicality::LeftThumbstickYPhysical),
        (m.spec_value() == 0x0000000000100000u64) <==> (m == XGameStreamingGamepadPhysicality::RightThumbstickXPhysical),
        (m.spec_value() == 0x0000000000200000u64) <==> (m == XGameStreamingGamepadPhysicality::RightThumbstickYPhysical),
        (m.spec_value() == 0x000000000000F3FFu64) <==> (m == XGameStreamingGamepadPhysicality::ButtonsPhysical),
        (m.spec_value() == 0x00000000003F0000u64) <==> (m == XGameStreamingGamepadPhysicality::AnalogsPhysical),
        (m.spec_value() == 0x00000000003FF3FFu64) <==> (m == XGameStreamingGamepadPhysicality::AllPhysical),
        (m.spec_value() == 0x0000000100000000u64) <==> (m == XGameStreamingGamepadPhysicality::DPadUpVirtual),
        (m.spec_value() == 0x0000000200000000u64) <==> (m == XGameStreamingGamepadPhysicality::DPadDownVirtual),
        (m.spec_value() == 0x0000000400000000u64) <==> (m == XGameStreamingGamepadPhysicality::DPadLeftVirtual),
        (m.spec_value() == 0x0000000800000000u64) <==> (m == XGameStreamingGamepadPhysicality::DPadRightVirtual),
        (m.spec_value() == 0x0000001000000000u64) <==> (m == XGameStreamingGamepadPhysicality::MenuVirtual),
        (m.spec_value() == 0x0000002000000000u64) <==> (m == XGameStreamingGamepadPhysicality::ViewVirtual),
        (m.spec_value() == 0x0000004000000000u64) <==> (m == XGameStreamingGamepadPhysicality::LeftThumbstickVirtual),
        (m.spec_value() == 0x0000008000000000u64) <==> (m == XGameStreamingGamepadPhysicality::RightThumbstickVirtual),
        (m.spec_value() == 0x0000010000000000u64) <==> (m == XGameStreamingGamepadPhysicality::LeftShoulderVirtual),
        (m.spec_value() == 0x0000020000000000u64) <==> (m == XGameStreamingGamepadPhysicality::RightShoulderVirtual),
        (m.spec_value() == 0x0000100000000000u64) <==> (m == XGameStreamingGamepadPhysicality::AVirtual),
        (m.spec_value() == 0x0000200000000000u64) <==> (m == XGameStreamingGamepadPhysicality::BVirtual),
        (m.spec_value() == 0x0000400000000000u64) <==> (m == XGameStreamingGamepadPhysicality::XVirtual),
        (m.spec_value() == 0x0000800000000000u64) <==> (m == XGameStreamingGamepadPhysicality::YVirtual),
        (m.spec_value() == 0x0001000000000000u64) <==> (m == XGameStreamingGamepadPhysicality::LeftTriggerVirtual),
        (m.spec_value() == 0x0002000000000000u64) <==> (m == XGameStreamingGamepadPhysicality::RightTriggerVirtual),
        (m.spec_value() == 0x0004000000000000u64) <==> (m == XGameStreamingGamepadPhysicality::LeftThumbstickXVirtual),
        (m.spec_value() == 0x0008000000000000u64) <==> (m == XGameStreamingGamepadPhysicality::LeftThumbstickYVirtual),
        (m.spec_value() == 0x0010000000000000u64) <==> (m == XGameStreamingGamepadPhysicality::RightThumbstickXVirtual),
        (m.spec_value() == 0x0020000000000000u64) <==> (m == XGameStreamingGamepadPhysicality::RightThumbstickYVirtual),
        (m.spec_value() == 0x0000F3FF00000000u64) <==> (m == XGameStreamingGamepadPhysicality::ButtonsVirtual),
        (m.spec_value() == 0x003F000000000000u64) <==> (m == XGameStreamingGamepadPhysicality::AnalogsVirtual),
        (m.spec_value() == 0x003FF3FF00000000u64) <==> (m == XGameStreamingGamepadPhysicality::AllVirtual),
{
}

impl XGameStreamingGamepadPhysicality {
    /// The value that stands for it in the runtime's ABI.
    pub open spec fn spec_value(self) -> u64 {
        match self {
            XGameStreamingGamepadPhysicality::NoPhysicality => 0x0000000000000000,
            XGameStreamingGamepadPhysicality::DPadUpPhysical => 0x0000000000000001,
            XGameStreamingGamepadPhysicality::DPadDownPhysical => 0x0000000000000002,
            XGameStreamingGamepadPhysicality::DPadLeftPhysical => 0x0000000000000004,
            XGameStreamingGamepadPhysicality::DPadRightPhysical => 0x0000000000000008,
            XGameStreamingGamepadPhysicality::MenuPhysical => 0x0000000000000010,
            XGameStreamingGamepadPhysicality::ViewPhysical => 0x0000000000000020,
            XGameStreamingGamepadPhysicality::LeftThumbstickPhysical => 0x0000000000000040,
            XGameStreamingGamepadPhysicality::RightThumbstickPhysical => 0x0000000000000080,
            XGameStreamingGamepadPhysicality::LeftShoulderPhysical => 0x0000000000000100,
            XGameStreamingGamepadPhysicality::RightShoulderPhysical => 0x0000000000000200,
            XGameStreamingGamepadPhysicality::APhysical => 0x0000000000001000,
            XGameStreamingGamepadPhysicality::BPhysical => 0x0000000000002000,
            XGameStreamingGamepadPhysicality::XPhysical => 0x0000000000004000,
            XGameStreamingGamepadPhysicality::YPhysical => 0x0000000000008000,
            XGameStreamingGamepadPhysicality::LeftTriggerPhysical => 0x0000000000010000,
            XGameStreamingGamepadPhysicality::RightTriggerPhysical => 0x0000000000020000,
            XGameStreamingGamepadPhysicality::LeftThumbstickXPhysical => 0x0000000000040000,
            XGameStreamingGamepadPhysicality::LeftThumbstickYPhysical => 0x0000000000080000,
            XGameStreamingGamepadPhysicality::RightThumbstickXPhysical => 0x0000000000100000,
            XGameStreamingGamepadPhysicality::RightThumbstickYPhysical => 0x0000000000200000,
            XGameStreamingGamepadPhysicality::ButtonsPhysical => 0x000000000000F3FF,
            XGameStreamingGamepadPhysicality::AnalogsPhysical => 0x00000000003F0000,
            XGameStreamingGamepadPhysicality::AllPhysical => 0x00000000003FF3FF,
            XGameStreamingGamepadPhysicality::DPadUpVirtual => 0x0000000100000000,
            XGameStreamingGamepadPhysicality::DPadDownVirtual => 0x0000000200000000,
            XGameStreamingGamepadPhysicality::DPadLeftVirtual => 0x0000000400000000,
            XGameStreamingGamepadPhysicality::DPadRightVirtual => 0x0000000800000000,
            XGameStreamingGamepadPhysicality::MenuVirtual => 0x0000001000000000,
            XGameStreamingGamepadPhysicality::ViewVirtual => 0x0000002000000000,
            XGameStreamingGamepadPhysicality::LeftThumbstickVirtual => 0x0000004000000000,
            XGameStreamingGamepadPhysicality::RightThumbstickVirtual => 0x0000008000000000,
            XGameStreamingGamepadPhysicality::LeftShoulderVirtual => 0x0000010000000000,
            XGameStreamingGamepadPhysicality::RightShoulderVirtual => 0x0000020000000000,
            XGameStreamingGamepadPhysicality::AVirtual => 0x0000100000000000,
            XGameStreamingGamepadPhysicality::BVirtual => 0x0000200000000000,
            XGameStreamingGamepadPhysicality::XVirtual => 0x0000400000000000,
            XGameStreamingGamepadPhysicality::YVirtual => 0x0000800000000000,
            XGameStreamingGamepadPhysicality::LeftTriggerVirtual => 0x0001000000000000,
            XGameStreamingGamepadPhysicality::RightTriggerVirtual => 0x0002000000000000,
            XGameStreamingGamepadPhysicality::LeftThumbstickXVirtual => 0x0004000000000000,
            XGameStreamingGamepadPhysicality::LeftThumbstickYVirtual => 0x0008000000000000,
            XGameStreamingGamepadPhysicality::RightThumbstickXVirtual => 0x0010000000000000,
            XGameStreamingGamepadPhysicality::RightThumbstickYVirtual => 0x0020000000000000,
            XGameStreamingGamepadPhysicality::ButtonsVirtual => 0x0000F3FF00000000,
            XGameStreamingGamepadPhysicality::AnalogsVirtual => 0x003F000000000000,
            XGameStreamingGamepadPhysicality::AllVirtual => 0x003FF3FF00000000,
        }
    }

    /// Whether `v` stands for a variant.
    pub open spec fn spec_is_value(v: u64) -> bool {
        v == 0x0000000000000000 || v == 0x0000000000000001 || v == 0x0000000000000002 || v == 0x0000000000000004 || v == 0x0000000000000008 || v == 0x0000000000000010 || v == 0x0000000000000020 || v == 0x0000000000000040 || v == 0x0000000000000080 || v == 0x0000000000000100 || v == 0x0000000000000200 || v == 0x0000000000001000 || v == 0x0000000000002000 || v == 0x0000000000004000 || v == 0x0000000000008000 || v == 0x0000000000010000 || v == 0x0000000000020000 || v == 0x0000000000040000 || v == 0x0000000000080000 || v == 0x0000000000100000 || v == 0x0000000000200000 || v == 0x000000000000F3FF || v == 0x00000000003F0000 || v == 0x00000000003FF3FF || v == 0x0000000100000000 || v == 0x0000000200000000 || v == 0x0000000400000000 || v == 0x0000000800000000 || v == 0x0000001000000000 || v == 0x0000002000000000 || v == 0x0000004000000000 || v == 0x0000008000000000 || v == 0x0000010000000000 || v == 0x0000020000000000 || v == 0x0000100000000000 || v == 0x0000200000000000 || v == 0x0000400000000000 || v == 0x0000800000000000 || v == 0x0001000000000000 || v == 0x0002000000000000 || v == 0x0004000000000000 || v == 0x0008000000000000 || v == 0x0010000000000000 || v == 0x0020000000000000 || v == 0x0000F3FF00000000 || v == 0x003F000000000000 || v == 0x003FF3FF00000000
    }

    /// Returns the value that stands for it in the runtime's ABI.
    pub fn value(&self) -> (v: u64)
        ensures
            v == self.spec_value(),
    {
        match self {
            XGameStreamingGamepadPhysicality::NoPhysicality => 0x0000000000000000,
            XGameStreamingGamepadPhysicality::DPadUpPhysical => 0x0000000000000001,
            XGameStreamingGamepadPhysicality::DPadDownPhysical => 0x0000000000000002,
            XGameStreamingGamepadPhysicality::DPadLeftPhysical => 0x0000000000000004,
            XGameStreamingGamepadPhysicality::DPadRightPhysical => 0x0000000000000008,
            XGameStreamingGamepadPhysicality::MenuPhysical => 0x0000000000000010,
            XGameStreamingGamepadPhysicality::ViewPhysical => 0x0000000000000020,
            XGameStreamingGamepadPhysicality::LeftThumbstickPhysical => 0x0000000000000040,
            XGameStreamingGamepadPhysicality::RightThumbstickPhysical => 0x0000000000000080,
            XGameStreamingGamepadPhysicality::LeftShoulderPhysical => 0x0000000000000100,
            XGameStreamingGamepadPhysicality::RightShoulderPhysical => 0x0000000000000200,
            XGameStreamingGamepadPhysicality::APhysical => 0x0000000000001000,
            XGameStreamingGamepadPhysicality::BPhysical => 0x0000000000002000,
            XGameStreamingGamepadPhysicality::XPhysical => 0x0000000000004000,
            XGameStreamingGamepadPhysicality::YPhysical => 0x0000000000008000,
            XGameStreamingGamepadPhysicality::LeftTriggerPhysical => 0x0000000000010000,
            XGameStreamingGamepadPhysicality::RightTriggerPhysical => 0x0000000000020000,
            XGameStreamingGamepadPhysicality::LeftThumbstickXPhysical => 0x0000000000040000,
            XGameStreamingGamepadPhysicality::LeftThumbstickYPhysical => 0x0000000000080000,
            XGameStreamingGamepadPhysicality::RightThumbstickXPhysical => 0x0000000000100000,
            XGameStreamingGamepadPhysicality::RightThumbstickYPhysical => 0x0000000000200000,
            XGameStreamingGamepadPhysicality::ButtonsPhysical => 0x000000000000F3FF,
            XGameStreamingGamepadPhysicality::AnalogsPhysical => 0x00000000003F0000,
            XGameStreamingGamepadPhysicality::AllPhysical => 0x00000000003FF3FF,
            XGameStreamingGamepadPhysicality::DPadUpVirtual => 0x0000000100000000,
            XGameStreamingGamepadPhysicality::DPadDownVirtual => 0x0000000200000000,
            XGameStreamingGamepadPhysicality::DPadLeftVirtual => 0x0000000400000000,
            XGameStreamingGamepadPhysicality::DPadRightVirtual => 0x0000000800000000,
            XGameStreamingGamepadPhysicality::MenuVirtual => 0x0000001000000000,
            XGameStreamingGamepadPhysicality::ViewVirtual => 0x0000002000000000,
            XGameStreamingGamepadPhysicality::LeftThumbstickVirtual => 0x0000004000000000,
            XGameStreamingGamepadPhysicality::RightThumbstickVirtual => 0x0000008000000000,
            XGameStreamingGamepadPhysicality::LeftShoulderVirtual => 0x0000010000000000,
            XGameStreamingGamepadPhysicality::RightShoulderVirtual => 0x0000020000000000,
            XGameStreamingGamepadPhysicality::AVirtual => 0x0000100000000000,
            XGameStreamingGamepadPhysicality::BVirtual => 0x0000200000000000,
            XGameStreamingGamepadPhysicality::XVirtual => 0x0000400000000000,
            XGameStreamingGamepadPhysicality::YVirtual => 0x0000800000000000,
            XGameStreamingGamepadPhysicality::LeftTriggerVirtual => 0x0001000000000000,
            XGameStreamingGamepadPhysicality::RightTriggerVirtual => 0x0002000000000000,
            XGameStreamingGamepadPhysicality::LeftThumbstickXVirtual => 0x0004000000000000,
            XGameStreamingGamepadPhysicality::LeftThumbstickYVirtual => 0x0008000000000000,
            XGameStreamingGamepadPhysicality::RightThumbstickXVirtual => 0x0010000000000000,
            XGameStreamingGamepadPhysicality::RightThumbstickYVirtual => 0x0020000000000000,
            XGameStreamingGamepadPhysicality::ButtonsVirtual => 0x0000F3FF00000000,
            XGameStreamingGamepadPhysicality::AnalogsVirtual => 0x003F000000000000,
            XGameStreamingGamepadPhysicality::AllVirtual => 0x003FF3FF00000000,
        }
    }

    /// Returns the variant that `v` stands for, if there is one.
    pub fn from_value(v: u64) -> (r: Option<XGameStreamingGamepadPhysicality>)
        ensures
            r matches Some(e) ==> e.spec_value() == v,
            r is None <==> !XGameStreamingGamepadPhysicality::spec_is_value(v),
    {
        if v == 0x0000000000000000 {
            Some(XGameStreamingGamepadPhysicality::NoPhysicality)
        } else if v == 0x0000000000000001 {
            Some(XGameStreamingGamepadPhysicality::DPadUpPhysical)
        } else if v == 0x0000000000000002 {
            Some(XGameStreamingGamepadPhysicality::DPadDownPhysical)
        } else if v == 0x0000000000000004 {
            Some(XGameStreamingGamepadPhysicality::DPadLeftPhysical)
        } else if v == 0x0000000000000008 {
            Some(XGameStreamingGamepadPhysicality::DPadRightPhysical)
        } else if v == 0x0000000000000010 {
            Some(XGameStreamingGamepadPhysicality::MenuPhysical)
        } else if v == 0x0000000000000020 {
            Some(XGameStreamingGamepadPhysicality::ViewPhysical)
        } else if v == 0x0000000000000040 {
            Some(XGameStreamingGamepadPhysicality::LeftThumbstickPhysical)
        } else if v == 0x0000000000000080 {
            Some(XGameStreamingGamepadPhysicality::RightThumbstickPhysical)
        } else if v == 0x0000000000000100 {
            Some(XGameStreamingGamepadPhysicality::LeftShoulderPhysical)
        } else if v == 0x0000000000000200 {
            Some(XGameStreamingGamepadPhysicality::RightShoulderPhysical)
        } else if v == 0x0000000000001000 {
            Some(XGameStreamingGamepadPhysicality::APhysical)
        } else if v == 0x0000000000002000 {
            Some(XGameStreamingGamepadPhysicality::BPhysical)
        } else if v == 0x0000000000004000 {
            Some(XGameStreamingGamepadPhysicality::XPhysical)
        } else if v == 0x0000000000008000 {
            Some(XGameStreamingGamepadPhysicality::YPhysical)
        } else if v == 0x0000000000010000 {
            Some(XGameStreamingGamepadPhysicality::LeftTriggerPhysical)
        } else if v == 0x0000000000020000 {
            Some(XGameStreamingGamepadPhysicality::RightTriggerPhysical)
        } else if v == 0x0000000000040000 {
            Some(XGameStreamingGamepadPhysicality::LeftThumbstickXPhysical)
        } else if v == 0x0000000000080000 {
            Some(XGameStreamingGamepadPhysicality::LeftThumbstickYPhysical)
        } else if v == 0x0000000000100000 {
            Some(XGameStreamingGamepadPhysicality::RightThumbstickXPhysical)
        } else if v == 0x0000000000200000 {
            Some(XGameStreamingGamepadPhysicality::RightThumbstickYPhysical)
        } else if v == 0x000000000000F3FF {
            Some(XGameStreamingGamepadPhysicality::ButtonsPhysical)
        } else if v == 0x00000000003F0000 {
            Some(XGameStreamingGamepadPhysicality::AnalogsPhysical)
        } else if v == 0x00000000003FF3FF {
            Some(XGameStreamingGamepadPhysicality::AllPhysical)
        } else if v == 0x0000000100000000 {
            Some(XGameStreamingGamepadPhysicality::DPadUpVirtual)
        } else if v == 0x0000000200000000 {
            Some(XGameStreamingGamepadPhysicality::DPadDownVirtual)
        } else if v == 0x0000000400000000 {
            Some(XGameStreamingGamepadPhysicality::DPadLeftVirtual)
        } else if v == 0x0000000800000000 {
            Some(XGameStreamingGamepadPhysicality::DPadRightVirtual)
        } else if v == 0x0000001000000000 {
            Some(XGameStreamingGamepadPhysicality::MenuVirtual)
        } else if v == 0x0000002000000000 {
            Some(XGameStreamingGamepadPhysicality::ViewVirtual)
        } else if v == 0x0000004000000000 {
            Some(XGameStreamingGamepadPhysicality::LeftThumbstickVirtual)
        } else if v == 0x0000008000000000 {
            Some(XGameStreamingGamepadPhysicality::RightThumbstickVirtual)
        } else if v == 0x0000010000000000 {
            Some(XGameStreamingGamepadPhysicality::LeftShoulderVirtual)
        } else if v == 0x0000020000000000 {
            Some(XGameStreamingGamepadPhysicality::RightShoulderVirtual)
        } else if v == 0x0000100000000000 {
            Some(XGameStreamingGamepadPhysicality::AVirtual)
        } else if v == 0x0000200000000000 {
            Some(XGameStreamingGamepadPhysicality::BVirtual)
        } else if v == 0x0000400000000000 {
            Some(XGameStreamingGamepadPhysicality::XVirtual)
        } else if v == 0x0000800000000000 {
            Some(XGameStreamingGamepadPhysicality::YVirtual)
        } else if v == 0x0001000000000000 {
            Some(XGameStreamingGamepadPhysicality::LeftTriggerVirtual)
        } else if v == 0x0002000000000000 {
            Some(XGameStreamingGamepadPhysicality::RightTriggerVirtual)
        } else if v == 0x0004000000000000 {
            Some(XGameStreamingGamepadPhysicality::LeftThumbstickXVirtual)
        } else if v == 0x0008000000000000 {
            Some(XGameStreamingGamepadPhysicality::LeftThumbstickYVirtual)
        } else if v == 0x0010000000000000 {
            Some(XGameStreamingGamepadPhysicality::RightThumbstickXVirtual)
        } else if v == 0x0020000000000000 {
            Some(XGameStreamingGamepadPhysicality::RightThumbstickYVirtual)
        } else if v == 0x0000F3FF00000000 {
            Some(XGameStreamingGamepadPhysicality::ButtonsVirtual)
        } else if v == 0x003F000000000000 {
            Some(XGameStreamingGamepadPhysicality::AnalogsVirtual)
        } else if v == 0x003FF3FF00000000 {
            Some(XGameStreamingGamepadPhysicality::AllVirtual)
        } else {
            None
        }
    }
}
/// What a touch controls state operation does.
#[derive(Clone, Copy, Debug, PartialEq, Eq, Structural)]
pub enum XGameStreamingTouchControlsStateOperationKind {
    Replace,
}

/// The numeric values of `XGameStreamingTouchControlsStateOperationKind` that
/// the ABI fixes: `Replace` is 0.
/// Each value belongs to one variant only.
pub proof fn law_x_game_streaming_touch_controls_state_operation_kind_abi_values(m: XGameStreamingTouchControlsStateOperationKind)
    ensures
        (m.spec_value() == 0u32) <==> (m == XGameStreamingTouchControlsStateOperationKind::Replace),
{
}

impl XGameStreamingTouchControlsStateOperationKind {
    /// The value that stands for it in the runtime's ABI.
    pub open spec fn spec_value(self) -> u32 {
        match self {
            XGameStreamingTouchControlsStateOperationKind::Replace => 0,
        }
    }

    /// Whether `v` stands for a variant.
    pub open spec fn spec_is_value(v: u32) -> bool {
        v == 0
    }

    /// Returns the value that stands for it in the runtime's ABI.
    pub fn value(&self) -> (v: u32)
        ensures
            v == self.spec_value(),
    {
        match self {
            XGameStreamingTouchControlsStateOperationKind::Replace => 0,
        }
    }

    /// Returns the variant that `v` stands for, if there is one.
    pub fn from_value(v: u32) -> (r: Option<XGameStreamingTouchControlsStateOperationKind>)
        ensures
            r matches Some(e) ==> e.spec_value() == v,
            r is None <==> !XGameStreamingTouchControlsStateOperationKind::spec_is_value(v),
    {
        if v == 0 {
            Some(XGameStreamingTouchControlsStateOperationKind::Replace)
        } else {
            None
        }
    }
}
/// The kind of a touch controls state value.
#[derive(Clone, Copy, Debug, PartialEq, Eq, Structural)]
pub enum XGameStreamingTouchControlsStateValueKind {
    Boolean,
    Integer,
    Double,
    /// A string value (the ABI's `String`).
    Text,
}

/// The numeric values of `XGameStreamingTouchControlsStateValueKind` that the
/// ABI fixes: `Boolean` is 0, `Integer` is 1, `Double` is 2, `Text` is 3.
/// Each value belongs to one variant only.
pub proof fn law_x_game_streaming_touch_controls_state_value_kind_abi_values(m: XGameStreamingTouchControlsStateValueKind)
    ensures
        (m.spec_value() == 0u32) <==> (m == XGameStreamingTouchControlsStateValueKind::Boolean),
        (m.spec_value() == 1u32) <==> (m == XGameStreamingTouchControlsStateValueKind::Integer),
        (m.spec_value() == 2u32) <==> (m == XGameStreamingTouchControlsStateValueKind::Double),
        (m.spec_value() == 3u32) <==> (m == XGameStreamingTouchControlsStateValueKind::Text),
{
}

impl XGameStreamingTouchControlsStateValueKind {
    /// The value that stands for it in the runtime's ABI.
    pub open spec fn spec_value(self) -> u32 {
        match self {
            XGameStreamingTouchControlsStateValueKind::Boolean => 0,
            XGameStreamingTouchControlsStateValueKind::Integer => 1,
            XGameStreamingTouchControlsStateValueKind::Double => 2,
            XGameStreamingTouchControlsStateValueKind::Text => 3,
        }
    }

    /// Whether `v` stands for a variant.
    pub open spec fn spec_is_value(v: u32) -> bool {
        v == 0 || v == 1 || v == 2 || v == 3
    }

    /// Returns the value that stands for it in the runtime's ABI.
    pub fn value(&self) -> (v: u32)
        ensures
            v == self.spec_value(),
    {
        match self {
            XGameStreamingTouchControlsStateValueKind::Boolean => 0,
            XGameStreamingTouchControlsStateValueKind::Integer => 1,
            XGameStreamingTouchControlsStateValueKind::Double => 2,
            XGameStreamingTouchControlsStateValueKind::Text => 3,
        }
    }

    /// Returns the variant that `v` stands for, if there is one.
    pub fn from_value(v: u32) -> (r: Option<XGameStreamingTouchControlsStateValueKind>)
        ensures
            r matches Some(e) ==> e.spec_value() == v,
            r is None <==> !XGameStreamingTouchControlsStateValueKind::spec_is_value(v),
    {
        if v == 0 {
            Some(XGameStreamingTouchControlsStateValueKind::Boolean)
        } else if v == 1 {
            Some(XGameStreamingTouchControlsStateValueKind::Integer)
        } else if v == 2 {
            Some(XGameStreamingTouchControlsStateValueKind::Double)
        } else if v == 3 {
            Some(XGameStreamingTouchControlsStateValueKind::Text)
        } else {
            None
        }
    }
}
/// What a streaming client's video supports.
#[derive(Clone, Copy, Debug, PartialEq, Eq, Structural)]
pub enum XGameStreamingVideoFlags {
    /// Nothing (the ABI's `None`).
    NoFlags,
    SupportsCustomAspectRatio,
    SupportsPresentScaling,
}

/// The numeric values of `XGameStreamingVideoFlags` that the ABI fixes:
/// `NoFlags` is 0x0, `SupportsCustomAspectRatio` is 0x1,
/// `SupportsPresentScaling` is 0x2.
/// Each value belongs to one variant only.
pub proof fn law_x_game_streaming_video_flags_abi_values(m: XGameStreamingVideoFlags)
    ensures
        (m.spec_value() == 0x0u32) <==> (m == XGameStreamingVideoFlags::NoFlags),
        (m.spec_value() == 0x1u32) <==> (m == XGameStreamingVideoFlags::SupportsCustomAspectRatio),
        (m.spec_value() == 0x2u32) <==> (m == XGameStreamingVideoFlags::SupportsPresentScaling),
{
}

impl XGameStreamingVideoFlags {
    /// The value that stands for it in the runtime's ABI.
    pub open spec fn spec_value(self) -> u32 {
        match self {
            XGameStreamingVideoFlags::NoFlags => 0x0,
            XGameStreamingVideoFlags::SupportsCustomAspectRatio => 0x1,
            XGameStreamingVideoFlags::SupportsPresentScaling => 0x2,
        }
    }

    /// Whether `v` stands for a variant.
    pub open spec fn spec_is_value(v: u32) -> bool {
        v == 0x0 || v == 0x1 || v == 0x2
    }

    /// Returns the value that stands for it in the runtime's ABI.
    pub fn value(&self) -> (v: u32)
        ensures
            v == self.spec_value(),
    {
        match self {
            XGameStreamingVideoFlags::NoFlags => 0x0,
            XGameStreamingVideoFlags::SupportsCustomAspectRatio => 0x1,
            XGameStreamingVideoFlags::SupportsPresentScaling => 0x2,
        }
    }

    /// Returns the variant that `v` stands for, if there is one.
    pub fn from_value(v: u32) -> (r: Option<XGameStreamingVideoFlags>)
        ensures
            r matches Some(e) ==> e.spec_value() == v,
            r is None <==> !XGameStreamingVideoFlags::spec_is_value(v),
    {
        if v == 0x0 {
            Some(XGameStreamingVideoFlags::NoFlags)
        } else if v == 0x1 {
            Some(XGameStreamingVideoFlags::SupportsCustomAspectRatio)
        } else if v == 0x2 {
            Some(XGameStreamingVideoFlags::SupportsPresentScaling)
        } else {
            None
        }
    }
}
/// The display of a streaming client.
#[derive(Clone, Copy, Debug)]
pub struct XGameStreamingDisplayDetails {
    pub preferred_width: u32,
    pub preferred_height: u32,
    pub safe_area: RECT,
    pub max_pixels: u32,
    pub max_width: u32,
    pub max_height: u32,
    pub flags: XGameStreamingVideoFlags,
}

} // verus!
