//! Users: the values of the user API and what the user object answers for
//! a runtime with no online sign-in.
use vstd::prelude::*;
use vstd::string::StrSliceExecFns;
use crate::results::{S_OK, E_FAIL, E_POINTER, E_NOTIMPL, E_ABORT};
use crate::xasync::{
    XAsyncBlock, XAsyncResultStep, XAsyncWorkOutcome, XASYNC_INITIALIZE_MAGIC, run_begin, spec_begin,
    spec_get_result, spec_result_size, spec_result_step, spec_word_magic, XAsyncProviderContext, get_result,
    spec_read_result,
};

verus! {

/// How `XUserAddAsync` adds a user.
#[derive(Clone, Copy, Debug, PartialEq, Eq, Structural)]
pub enum XUserAddOptions {
    /// No option (the ABI's `None`).
    NoOptions,
    AddDefaultUserSilently,
    AllowGuests,
    AddDefaultUserAllowingUI,
}

/// The numeric values of `XUserAddOptions` that the ABI fixes: `NoOptions` is
/// 0x00, `AddDefaultUserSilently` is 0x01, `AllowGuests` is 0x02,
/// `AddDefaultUserAllowingUI` is 0x04.
/// Each value belongs to one variant only.
pub proof fn law_x_user_add_options_abi_values(m: XUserAddOptions)
    ensures
        (m.spec_value() == 0x00u32) <==> (m == XUserAddOptions::NoOptions),
        (m.spec_value() == 0x01u32) <==> (m == XUserAddOptions::AddDefaultUserSilently),
        (m.spec_value() == 0x02u32) <==> (m == XUserAddOptions::AllowGuests),
        (m.spec_value() == 0x04u32) <==> (m == XUserAddOptions::AddDefaultUserAllowingUI),
{
}

impl XUserAddOptions {
    /// The value that stands for it in the runtime's ABI.
    pub open spec fn spec_value(self) -> u32 {
        match self {
            XUserAddOptions::NoOptions => 0x00,
            XUserAddOptions::AddDefaultUserSilently => 0x01,
            XUserAddOptions::AllowGuests => 0x02,
            XUserAddOptions::AddDefaultUserAllowingUI => 0x04,
        }
    }

    /// Whether `v` stands for a variant.
    pub open spec fn spec_is_value(v: u32) -> bool {
        v == 0x00 || v == 0x01 || v == 0x02 || v == 0x04
    }

    /// Returns the value that stands for it in the runtime's ABI.
    pub fn value(&self) -> (v: u32)
        ensures
            v == self.spec_value(),
    {
        match self {
            XUserAddOptions::NoOptions => 0x00,
            XUserAddOptions::AddDefaultUserSilently => 0x01,
            XUserAddOptions::AllowGuests => 0x02,
            XUserAddOptions::AddDefaultUserAllowingUI => 0x04,
        }
    }

    /// Returns the variant that `v` stands for, if there is one.
    pub fn from_value(v: u32) -> (r: Option<XUserAddOptions>)
        ensures
            r matches Some(e) ==> e.spec_value() == v,
            r is None <==> !XUserAddOptions::spec_is_value(v),
    {
        if v == 0x00 {
            Some(XUserAddOptions::NoOptions)
        } else if v == 0x01 {
            Some(XUserAddOptions::AddDefaultUserSilently)
        } else if v == 0x02 {
            Some(XUserAddOptions::AllowGuests)
        } else if v == 0x04 {
            Some(XUserAddOptions::AddDefaultUserAllowingUI)
        } else {
            None
        }
    }
}

/// The age group of a user.
#[derive(Clone, Copy, Debug, PartialEq, Eq, Structural)]
pub enum XUserAgeGroup {
    Unknown,
    Child,
    Teen,
    Adult,
}

/// The numeric values of `XUserAgeGroup` that the ABI fixes: `Unknown` is 0,
/// `Child` is 1, `Teen` is 2, `Adult` is 3.
/// Each value belongs to one variant only.
pub proof fn law_x_user_age_group_abi_values(m: XUserAgeGroup)
    ensures
        (m.spec_value() == 0u32) <==> (m == XUserAgeGroup::Unknown),
        (m.spec_value() == 1u32) <==> (m == XUserAgeGroup::Child),
        (m.spec_value() == 2u32) <==> (m == XUserAgeGroup::Teen),
        (m.spec_value() == 3u32) <==> (m == XUserAgeGroup::Adult),
{
}

impl XUserAgeGroup {
    /// The value that stands for it in the runtime's ABI.
    pub open spec fn spec_value(self) -> u32 {
        match self {
            XUserAgeGroup::Unknown => 0,
            XUserAgeGroup::Child => 1,
            XUserAgeGroup::Teen => 2,
            XUserAgeGroup::Adult => 3,
        }
    }

    /// Whether `v` stands for a variant.
    pub open spec fn spec_is_value(v: u32) -> bool {
        v == 0 || v == 1 || v == 2 || v == 3
    }

    /// Returns the value that stands for it in the runtime's ABI.
    pub fn value(&self) -> (v: u32)
        ensures
            v == self.spec_value(),
    {
        match self {
            XUserAgeGroup::Unknown => 0,
            XUserAgeGroup::Child => 1,
            XUserAgeGroup::Teen => 2,
            XUserAgeGroup::Adult => 3,
        }
    }

    /// Returns the variant that `v` stands for, if there is one.
    pub fn from_value(v: u32) -> (r: Option<XUserAgeGroup>)
        ensures
            r matches Some(e) ==> e.spec_value() == v,
            r is None <==> !XUserAgeGroup::spec_is_value(v),
    {
        if v == 0 {
            Some(XUserAgeGroup::Unknown)
        } else if v == 1 {
            Some(XUserAgeGroup::Child)
        } else if v == 2 {
            Some(XUserAgeGroup::Teen)
        } else if v == 3 {
            Some(XUserAgeGroup::Adult)
        } else {
            None
        }
    }
}

/// What changed about a user.
#[derive(Clone, Copy, Debug, PartialEq, Eq, Structural)]
pub enum XUserChangeEvent {
    SignedInAgain,
    SigningOut,
    SignedOut,
    Gamertag,
    GamerPicture,
    Privileges,
}

/// The numeric values of `XUserChangeEvent` that the ABI fixes:
/// `SignedInAgain` is 0, `SigningOut` is 1, `SignedOut` is 2, `Gamertag` is
/// 3, `GamerPicture` is 4, `Privileges` is 5.
/// Each value belongs to one variant only.
pub proof fn law_x_user_change_event_abi_values(m: XUserChangeEvent)
    ensures
        (m.spec_value() == 0u32) <==> (m == XUserChangeEvent::SignedInAgain),
        (m.spec_value() == 1u32) <==> (m == XUserChangeEvent::SigningOut),
        (m.spec_value() == 2u32) <==> (m == XUserChangeEvent::SignedOut),
        (m.spec_value() == 3u32) <==> (m == XUserChangeEvent::Gamertag),
        (m.spec_value() == 4u32) <==> (m == XUserChangeEvent::GamerPicture),
        (m.spec_value() == 5u32) <==> (m == XUserChangeEvent::Privileges),
{
}

impl XUserChangeEvent {
    /// The value that stands for it in the runtime's ABI.
    pub open spec fn spec_value(self) -> u32 {
        match self {
            XUserChangeEvent::SignedInAgain => 0,
            XUserChangeEvent::SigningOut => 1,
            XUserChangeEvent::SignedOut => 2,
            XUserChangeEvent::Gamertag => 3,
            XUserChangeEvent::GamerPicture => 4,
            XUserChangeEvent::Privileges => 5,
        }
    }

    /// Whether `v` stands for a variant.
    pub open spec fn spec_is_value(v: u32) -> bool {
        v == 0 || v == 1 || v == 2 || v == 3 || v == 4 || v == 5
    }

    /// Returns the value that stands for it in the runtime's ABI.
    pub fn value(&self) -> (v: u32)
        ensures
            v == self.spec_value(),
    {
        match self {
            XUserChangeEvent::SignedInAgain => 0,
            XUserChangeEvent::SigningOut => 1,
            XUserChangeEvent::SignedOut => 2,
            XUserChangeEvent::Gamertag => 3,
            XUserChangeEvent::GamerPicture => 4,
            XUserChangeEvent::Privileges => 5,
        }
    }

    /// Returns the variant that `v` stands for, if there is one.
    pub fn from_value(v: u32) -> (r: Option<XUserChangeEvent>)
        ensures
            r matches Some(e) ==> e.spec_value() == v,
            r is None <==> !XUserChangeEvent::spec_is_value(v),
    {
        if v == 0 {
            Some(XUserChangeEvent::SignedInAgain)
        } else if v == 1 {
            Some(XUserChangeEvent::SigningOut)
        } else if v == 2 {
            Some(XUserChangeEvent::SignedOut)
        } else if v == 3 {
            Some(XUserChangeEvent::Gamertag)
        } else if v == 4 {
            Some(XUserChangeEvent::GamerPicture)
        } else if v == 5 {
            Some(XUserChangeEvent::Privileges)
        } else {
            None
        }
    }
}

/// Which default audio endpoint of a user is meant.
#[derive(Clone, Copy, Debug, PartialEq, Eq, Structural)]
pub enum XUserDefaultAudioEndpointKind {
    CommunicationRender,
    CommunicationCapture,
}

/// The numeric values of `XUserDefaultAudioEndpointKind` that the ABI fixes:
/// `CommunicationRender` is 0, `CommunicationCapture` is 1.
/// Each value belongs to one variant only.
pub proof fn law_x_user_default_audio_endpoint_kind_abi_values(m: XUserDefaultAudioEndpointKind)
    ensures
        (m.spec_value() == 0u32) <==> (m == XUserDefaultAudioEndpointKind::CommunicationRender),
        (m.spec_value() == 1u32) <==> (m == XUserDefaultAudioEndpointKind::CommunicationCapture),
{
}

impl XUserDefaultAudioEndpointKind {
    /// The value that stands for it in the runtime's ABI.
    pub open spec fn spec_value(self) -> u32 {
        match self {
            XUserDefaultAudioEndpointKind::CommunicationRender => 0,
            XUserDefaultAudioEndpointKind::CommunicationCapture => 1,
        }
    }

    /// Whether `v` stands for a variant.
    pub open spec fn spec_is_value(v: u32) -> bool {
        v == 0 || v == 1
    }

    /// Returns the value that stands for it in the runtime's ABI.
    pub fn value(&self) -> (v: u32)
        ensures
            v == self.spec_value(),
    {
        match self {
            XUserDefaultAudioEndpointKind::CommunicationRender => 0,
            XUserDefaultAudioEndpointKind::CommunicationCapture => 1,
        }
    }

    /// Returns the variant that `v` stands for, if there is one.
    pub fn from_value(v: u32) -> (r: Option<XUserDefaultAudioEndpointKind>)
        ensures
            r matches Some(e) ==> e.spec_value() == v,
            r is None <==> !XUserDefaultAudioEndpointKind::spec_is_value(v),
    {
        if v == 0 {
            Some(XUserDefaultAudioEndpointKind::CommunicationRender)
        } else if v == 1 {
            Some(XUserDefaultAudioEndpointKind::CommunicationCapture)
        } else {
            None
        }
    }
}

/// The size of a gamer picture.
#[derive(Clone, Copy, Debug, PartialEq, Eq, Structural)]
pub enum XUserGamerPictureSize {
    Small,
    Medium,
    Large,
    ExtraLarge,
}

/// The numeric values of `XUserGamerPictureSize` that the ABI fixes: `Small`
/// is 0, `Medium` is 1, `Large` is 2, `ExtraLarge` is 3.
/// Each value belongs to one variant only.
pub proof fn law_x_user_gamer_picture_size_abi_values(m: XUserGamerPictureSize)
    ensures
        (m.spec_value() == 0u32) <==> (m == XUserGamerPictureSize::Small),
        (m.spec_value() == 1u32) <==> (m == XUserGamerPictureSize::Medium),
        (m.spec_value() == 2u32) <==> (m == XUserGamerPictureSize::Large),
        (m.spec_value() == 3u32) <==> (m == XUserGamerPictureSize::ExtraLarge),
{
}

impl XUserGamerPictureSize {
    /// The value that stands for it in the runtime's ABI.
    pub open spec fn spec_value(self) -> u32 {
        match self {
            XUserGamerPictureSize::Small => 0,
            XUserGamerPictureSize::Medium => 1,
            XUserGamerPictureSize::Large => 2,
            XUserGamerPictureSize::ExtraLarge => 3,
        }
    }

    /// Whether `v` stands for a variant.
    pub open spec fn spec_is_value(v: u32) -> bool {
        v == 0 || v == 1 || v == 2 || v == 3
    }

    /// Returns the value that stands for it in the runtime's ABI.
    pub fn value(&self) -> (v: u32)
        ensures
            v == self.spec_value(),
    {
        match self {
            XUserGamerPictureSize::Small => 0,
            XUserGamerPictureSize::Medium => 1,
            XUserGamerPictureSize::Large => 2,
            XUserGamerPictureSize::ExtraLarge => 3,
        }
    }

    /// Returns the variant that `v` stands for, if there is one.
    pub fn from_value(v: u32) -> (r: Option<XUserGamerPictureSize>)
        ensures
            r matches Some(e) ==> e.spec_value() == v,
            r is None <==> !XUserGamerPictureSize::spec_is_value(v),
    {
        if v == 0 {
            Some(XUserGamerPictureSize::Small)
        } else if v == 1 {
            Some(XUserGamerPictureSize::Medium)
        } else if v == 2 {
            Some(XUserGamerPictureSize::Large)
        } else if v == 3 {
            Some(XUserGamerPictureSize::ExtraLarge)
        } else {
            None
        }
    }
}

/// Which part of a gamertag is asked for.
#[derive(Clone, Copy, Debug, PartialEq, Eq, Structural)]
pub enum XUserGamertagComponent {
    Classic,
    Modern,
    ModernSuffix,
    UniqueModern,
}

/// The numeric values of `XUserGamertagComponent` that the ABI fixes:
/// `Classic` is 0, `Modern` is 1, `ModernSuffix` is 2, `UniqueModern` is 3.
/// Each value belongs to one variant only.
pub proof fn law_x_user_gamertag_component_abi_values(m: XUserGamertagComponent)
    ensures
        (m.spec_value() == 0u32) <==> (m == XUserGamertagComponent::Classic),
        (m.spec_value() == 1u32) <==> (m == XUserGamertagComponent::Modern),
        (m.spec_value() == 2u32) <==> (m == XUserGamertagComponent::ModernSuffix),
        (m.spec_value() == 3u32) <==> (m == XUserGamertagComponent::UniqueModern),
{
}

impl XUserGamertagComponent {
    /// The value that stands for it in the runtime's ABI.
    pub open spec fn spec_value(self) -> u32 {
        match self {
            XUserGamertagComponent::Classic => 0,
            XUserGamertagComponent::Modern => 1,
            XUserGamertagComponent::ModernSuffix => 2,
            XUserGamertagComponent::UniqueModern => 3,
        }
    }

    /// Whether `v` stands for a variant.
    pub open spec fn spec_is_value(v: u32) -> bool {
        v == 0 || v == 1 || v == 2 || v == 3
    }

    /// Returns the value that stands for it in the runtime's ABI.
    pub fn value(&self) -> (v: u32)
        ensures
            v == self.spec_value(),
    {
        match self {
            XUserGamertagComponent::Classic => 0,
            XUserGamertagComponent::Modern => 1,
            XUserGamertagComponent::ModernSuffix => 2,
            XUserGamertagComponent::UniqueModern => 3,
        }
    }

    /// Returns the variant that `v` stands for, if there is one.
    pub fn from_value(v: u32) -> (r: Option<XUserGamertagComponent>)
        ensures
            r matches Some(e) ==> e.spec_value() == v,
            r is None <==> !XUserGamertagComponent::spec_is_value(v),
    {
        if v == 0 {
            Some(XUserGamertagComponent::Classic)
        } else if v == 1 {
            Some(XUserGamertagComponent::Modern)
        } else if v == 2 {
            Some(XUserGamertagComponent::ModernSuffix)
        } else if v == 3 {
            Some(XUserGamertagComponent::UniqueModern)
        } else {
            None
        }
    }
}

/// Options of `XUserGetMsaTokenSilentlyAsync`.
#[derive(Clone, Copy, Debug, PartialEq, Eq, Structural)]
pub enum XUserGetMsaTokenSilentlyOptions {
    /// No option (the ABI's `None`).
    NoOptions,
}

/// The numeric values of `XUserGetMsaTokenSilentlyOptions` that the ABI
/// fixes: `NoOptions` is 0x00.
/// Each value belongs to one variant only.
pub proof fn law_x_user_get_msa_token_silently_options_abi_values(m: XUserGetMsaTokenSilentlyOptions)
    ensures
        (m.spec_value() == 0x00u32) <==> (m == XUserGetMsaTokenSilentlyOptions::NoOptions),
{
}

impl XUserGetMsaTokenSilentlyOptions {
    /// The value that stands for it in the runtime's ABI.
    pub open spec fn spec_value(self) -> u32 {
        match self {
            XUserGetMsaTokenSilentlyOptions::NoOptions => 0x00,
        }
    }

    /// Whether `v` stands for a variant.
    pub open spec fn spec_is_value(v: u32) -> bool {
        v == 0x00
    }

    /// Returns the value that stands for it in the runtime's ABI.
    pub fn value(&self) -> (v: u32)
        ensures
            v == self.spec_value(),
    {
        match self {
            XUserGetMsaTokenSilentlyOptions::NoOptions => 0x00,
        }
    }

    /// Returns the variant that `v` stands for, if there is one.
    pub fn from_value(v: u32) -> (r: Option<XUserGetMsaTokenSilentlyOptions>)
        ensures
            r matches Some(e) ==> e.spec_value() == v,
            r is None <==> !XUserGetMsaTokenSilentlyOptions::spec_is_value(v),
    {
        if v == 0x00 {
            Some(XUserGetMsaTokenSilentlyOptions::NoOptions)
        } else {
            None
        }
    }
}

/// Options of `XUserGetTokenAndSignatureAsync`.
#[derive(Clone, Copy, Debug, PartialEq, Eq, Structural)]
pub enum XUserGetTokenAndSignatureOptions {
    /// No option (the ABI's `None`).
    NoOptions,
    ForceRefresh,
    AllUsers,
}

/// The numeric values of `XUserGetTokenAndSignatureOptions` that the ABI
/// fixes: `NoOptions` is 0x00, `ForceRefresh` is 0x01, `AllUsers` is 0x02.
/// Each value belongs to one variant only.
pub proof fn law_x_user_get_token_and_signature_options_abi_values(m: XUserGetTokenAndSignatureOptions)
    ensures
        (m.spec_value() == 0x00u32) <==> (m == XUserGetTokenAndSignatureOptions::NoOptions),
        (m.spec_value() == 0x01u32) <==> (m == XUserGetTokenAndSignatureOptions::ForceRefresh),
        (m.spec_value() == 0x02u32) <==> (m == XUserGetTokenAndSignatureOptions::AllUsers),
{
}

impl XUserGetTokenAndSignatureOptions {
    /// The value that stands for it in the runtime's ABI.
    pub open spec fn spec_value(self) -> u32 {
        match self {
            XUserGetTokenAndSignatureOptions::NoOptions => 0x00,
            XUserGetTokenAndSignatureOptions::ForceRefresh => 0x01,
            XUserGetTokenAndSignatureOptions::AllUsers => 0x02,
        }
    }

    /// Whether `v` stands for a variant.
    pub open spec fn spec_is_value(v: u32) -> bool {
        v == 0x00 || v == 0x01 || v == 0x02
    }

    /// Returns the value that stands for it in the runtime's ABI.
    pub fn value(&self) -> (v: u32)
        ensures
            v == self.spec_value(),
    {
        match self {
            XUserGetTokenAndSignatureOptions::NoOptions => 0x00,
            XUserGetTokenAndSignatureOptions::ForceRefresh => 0x01,
            XUserGetTokenAndSignatureOptions::AllUsers => 0x02,
        }
    }

    /// Returns the variant that `v` stands for, if there is one.
    pub fn from_value(v: u32) -> (r: Option<XUserGetTokenAndSignatureOptions>)
        ensures
            r matches Some(e) ==> e.spec_value() == v,
            r is None <==> !XUserGetTokenAndSignatureOptions::spec_is_value(v),
    {
        if v == 0x00 {
            Some(XUserGetTokenAndSignatureOptions::NoOptions)
        } else if v == 0x01 {
            Some(XUserGetTokenAndSignatureOptions::ForceRefresh)
        } else if v == 0x02 {
            Some(XUserGetTokenAndSignatureOptions::AllUsers)
        } else {
            None
        }
    }
}

/// A privilege that a user may hold.
#[derive(Clone, Copy, Debug, PartialEq, Eq, Structural)]
pub enum XUserPrivilege {
    CrossPlay,
    Clubs,
    Sessions,
    Broadcast,
    ManageProfilePrivacy,
    GameDvr,
    MultiplayerParties,
    CloudManageSession,
    CloudJoinSession,
    CloudSavedGames,
    SocialNetworkSharing,
    UserGeneratedContent,
    Communications,
    Multiplayer,
    AddFriends,
}

/// The numeric values of `XUserPrivilege` that the ABI fixes: `CrossPlay` is
/// 185, `Clubs` is 188, `Sessions` is 189, `Broadcast` is 190,
/// `ManageProfilePrivacy` is 196, `GameDvr` is 198, `MultiplayerParties` is
/// 203, `CloudManageSession` is 207, `CloudJoinSession` is 208,
/// `CloudSavedGames` is 209, `SocialNetworkSharing` is 220,
/// `UserGeneratedContent` is 247, `Communications` is 252, `Multiplayer` is
/// 254, `AddFriends` is 255.
/// Each value belongs to one variant only.
pub proof fn law_x_user_privilege_abi_values(m: XUserPrivilege)
    ensures
        (m.spec_value() == 185u32) <==> (m == XUserPrivilege::CrossPlay),
        (m.spec_value() == 188u32) <==> (m == XUserPrivilege::Clubs),
        (m.spec_value() == 189u32) <==> (m == XUserPrivilege::Sessions),
        (m.spec_value() == 190u32) <==> (m == XUserPrivilege::Broadcast),
        (m.spec_value() == 196u32) <==> (m == XUserPrivilege::ManageProfilePrivacy),
        (m.spec_value() == 198u32) <==> (m == XUserPrivilege::GameDvr),
        (m.spec_value() == 203u32) <==> (m == XUserPrivilege::MultiplayerParties),
        (m.spec_value() == 207u32) <==> (m == XUserPrivilege::CloudManageSession),
        (m.spec_value() == 208u32) <==> (m == XUserPrivilege::CloudJoinSession),
        (m.spec_value() == 209u32) <==> (m == XUserPrivilege::CloudSavedGames),
        (m.spec_value() == 220u32) <==> (m == XUserPrivilege::SocialNetworkSharing),
        (m.spec_value() == 247u32) <==> (m == XUserPrivilege::UserGeneratedContent),
        (m.spec_value() == 252u32) <==> (m == XUserPrivilege::Communications),
        (m.spec_value() == 254u32) <==> (m == XUserPrivilege::Multiplayer),
        (m.spec_value() == 255u32) <==> (m == XUserPrivilege::AddFriends),
{
}

impl XUserPrivilege {
    /// The value that stands for it in the runtime's ABI.
    pub open spec fn spec_value(self) -> u32 {
        match self {
            XUserPrivilege::CrossPlay => 185,
            XUserPrivilege::Clubs => 188,
            XUserPrivilege::Sessions => 189,
            XUserPrivilege::Broadcast => 190,
            XUserPrivilege::ManageProfilePrivacy => 196,
            XUserPrivilege::GameDvr => 198,
            XUserPrivilege::MultiplayerParties => 203,
            XUserPrivilege::CloudManageSession => 207,
            XUserPrivilege::CloudJoinSession => 208,
            XUserPrivilege::CloudSavedGames => 209,
            XUserPrivilege::SocialNetworkSharing => 220,
            XUserPrivilege::UserGeneratedContent => 247,
            XUserPrivilege::Communications => 252,
            XUserPrivilege::Multiplayer => 254,
            XUserPrivilege::AddFriends => 255,
        }
    }

    /// Whether `v` stands for a variant.
    pub open spec fn spec_is_value(v: u32) -> bool {
        v == 185 || v == 188 || v == 189 || v == 190 || v == 196 || v == 198 || v == 203 || v == 207 || v == 208 || v == 209 || v == 220 || v == 247 || v == 252 || v == 254 || v == 255
    }

    /// Returns the value that stands for it in the runtime's ABI.
    pub fn value(&self) -> (v: u32)
        ensures
            v == self.spec_value(),
    {
        match self {
            XUserPrivilege::CrossPlay => 185,
            XUserPrivilege::Clubs => 188,
            XUserPrivilege::Sessions => 189,
            XUserPrivilege::Broadcast => 190,
            XUserPrivilege::ManageProfilePrivacy => 196,
            XUserPrivilege::GameDvr => 198,
            XUserPrivilege::MultiplayerParties => 203,
            XUserPrivilege::CloudManageSession => 207,
            XUserPrivilege::CloudJoinSession => 208,
            XUserPrivilege::CloudSavedGames => 209,
            XUserPrivilege::SocialNetworkSharing => 220,
            XUserPrivilege::UserGeneratedContent => 247,
            XUserPrivilege::Communications => 252,
            XUserPrivilege::Multiplayer => 254,
            XUserPrivilege::AddFriends => 255,
        }
    }

    /// Returns the variant that `v` stands for, if there is one.
    pub fn from_value(v: u32) -> (r: Option<XUserPrivilege>)
        ensures
            r matches Some(e) ==> e.spec_value() == v,
            r is None <==> !XUserPrivilege::spec_is_value(v),
    {
        if v == 185 {
            Some(XUserPrivilege::CrossPlay)
        } else if v == 188 {
            Some(XUserPrivilege::Clubs)
        } else if v == 189 {
            Some(XUserPrivilege::Sessions)
        } else if v == 190 {
            Some(XUserPrivilege::Broadcast)
        } else if v == 196 {
            Some(XUserPrivilege::ManageProfilePrivacy)
        } else if v == 198 {
            Some(XUserPrivilege::GameDvr)
        } else if v == 203 {
            Some(XUserPrivilege::MultiplayerParties)
        } else if v == 207 {
            Some(XUserPrivilege::CloudManageSession)
        } else if v == 208 {
            Some(XUserPrivilege::CloudJoinSession)
        } else if v == 209 {
            Some(XUserPrivilege::CloudSavedGames)
        } else if v == 220 {
            Some(XUserPrivilege::SocialNetworkSharing)
        } else if v == 247 {
            Some(XUserPrivilege::UserGeneratedContent)
        } else if v == 252 {
            Some(XUserPrivilege::Communications)
        } else if v == 254 {
            Some(XUserPrivilege::Multiplayer)
        } else if v == 255 {
            Some(XUserPrivilege::AddFriends)
        } else {
            None
        }
    }
}

/// Why a privilege is denied.
#[derive(Clone, Copy, Debug, PartialEq, Eq, Structural)]
pub enum XUserPrivilegeDenyReason {
    /// Not denied (the ABI's `None`).
    NoReason,
    PurchaseRequired,
    Restricted,
    Banned,
    Unknown,
}

/// The numeric values of `XUserPrivilegeDenyReason` that the ABI fixes:
/// `NoReason` is 0, `PurchaseRequired` is 1, `Restricted` is 2, `Banned` is
/// 3, `Unknown` is 0xFFFFFFFF.
/// Each value belongs to one variant only.
pub proof fn law_x_user_privilege_deny_reason_abi_values(m: XUserPrivilegeDenyReason)
    ensures
        (m.spec_value() == 0u32) <==> (m == XUserPrivilegeDenyReason::NoReason),
        (m.spec_value() == 1u32) <==> (m == XUserPrivilegeDenyReason::PurchaseRequired),
        (m.spec_value() == 2u32) <==> (m == XUserPrivilegeDenyReason::Restricted),
        (m.spec_value() == 3u32) <==> (m == XUserPrivilegeDenyReason::Banned),
        (m.spec_value() == 0xFFFFFFFFu32) <==> (m == XUserPrivilegeDenyReason::Unknown),
{
}

impl XUserPrivilegeDenyReason {
    /// The value that stands for it in the runtime's ABI.
    pub open spec fn spec_value(self) -> u32 {
        match self {
            XUserPrivilegeDenyReason::NoReason => 0,
            XUserPrivilegeDenyReason::PurchaseRequired => 1,
            XUserPrivilegeDenyReason::Restricted => 2,
            XUserPrivilegeDenyReason::Banned => 3,
            XUserPrivilegeDenyReason::Unknown => 0xFFFFFFFF,
        }
    }

    /// Whether `v` stands for a variant.
    pub open spec fn spec_is_value(v: u32) -> bool {
        v == 0 || v == 1 || v == 2 || v == 3 || v == 0xFFFFFFFF
    }

    /// Returns the value that stands for it in the runtime's ABI.
    pub fn value(&self) -> (v: u32)
        ensures
            v == self.spec_value(),
    {
        match self {
            XUserPrivilegeDenyReason::NoReason => 0,
            XUserPrivilegeDenyReason::PurchaseRequired => 1,
            XUserPrivilegeDenyReason::Restricted => 2,
            XUserPrivilegeDenyReason::Banned => 3,
            XUserPrivilegeDenyReason::Unknown => 0xFFFFFFFF,
        }
    }

    /// Returns the variant that `v` stands for, if there is one.
    pub fn from_value(v: u32) -> (r: Option<XUserPrivilegeDenyReason>)
        ensures
            r matches Some(e) ==> e.spec_value() == v,
            r is None <==> !XUserPrivilegeDenyReason::spec_is_value(v),
    {
        if v == 0 {
            Some(XUserPrivilegeDenyReason::NoReason)
        } else if v == 1 {
            Some(XUserPrivilegeDenyReason::PurchaseRequired)
        } else if v == 2 {
            Some(XUserPrivilegeDenyReason::Restricted)
        } else if v == 3 {
            Some(XUserPrivilegeDenyReason::Banned)
        } else if v == 0xFFFFFFFF {
            Some(XUserPrivilegeDenyReason::Unknown)
        } else {
            None
        }
    }
}

/// Options of a privilege check.
#[derive(Clone, Copy, Debug, PartialEq, Eq, Structural)]
pub enum XUserPrivilegeOptions {
    /// No option (the ABI's `None`).
    NoOptions,
    AllUsers,
}

/// The numeric values of `XUserPrivilegeOptions` that the ABI fixes:
/// `NoOptions` is 0x00, `AllUsers` is 0x01.
/// Each value belongs to one variant only.
pub proof fn law_x_user_privilege_options_abi_values(m: XUserPrivilegeOptions)
    ensures
        (m.spec_value() == 0x00u32) <==> (m == XUserPrivilegeOptions::NoOptions),
        (m.spec_value() == 0x01u32) <==> (m == XUserPrivilegeOptions::AllUsers),
{
}

impl XUserPrivilegeOptions {
    /// The value that stands for it in the runtime's ABI.
    pub open spec fn spec_value(self) -> u32 {
        match self {
            XUserPrivilegeOptions::NoOptions => 0x00,
            XUserPrivilegeOptions::AllUsers => 0x01,
        }
    }

    /// Whether `v` stands for a variant.
    pub open spec fn spec_is_value(v: u32) -> bool {
        v == 0x00 || v == 0x01
    }

    /// Returns the value that stands for it in the runtime's ABI.
    pub fn value(&self) -> (v: u32)
        ensures
            v == self.spec_value(),
    {
        match self {
            XUserPrivilegeOptions::NoOptions => 0x00,
            XUserPrivilegeOptions::AllUsers => 0x01,
        }
    }

    /// Returns the variant that `v` stands for, if there is one.
    pub fn from_value(v: u32) -> (r: Option<XUserPrivilegeOptions>)
        ensures
            r matches Some(e) ==> e.spec_value() == v,
            r is None <==> !XUserPrivilegeOptions::spec_is_value(v),
    {
        if v == 0x00 {
            Some(XUserPrivilegeOptions::NoOptions)
        } else if v == 0x01 {
            Some(XUserPrivilegeOptions::AllUsers)
        } else {
            None
        }
    }
}

/// Whether a user is signed in.
#[derive(Clone, Copy, Debug, PartialEq, Eq, Structural)]
pub enum XUserState {
    SignedIn,
    SigningOut,
    SignedOut,
}

/// The numeric values of `XUserState` that the ABI fixes: `SignedIn` is 0,
/// `SigningOut` is 1, `SignedOut` is 2.
/// Each value belongs to one variant only.
pub proof fn law_x_user_state_abi_values(m: XUserState)
    ensures
        (m.spec_value() == 0u32) <==> (m == XUserState::SignedIn),
        (m.spec_value() == 1u32) <==> (m == XUserState::SigningOut),
        (m.spec_value() == 2u32) <==> (m == XUserState::SignedOut),
{
}

impl XUserState {
    /// The value that stands for it in the runtime's ABI.
    pub open spec fn spec_value(self) -> u32 {
        match self {
            XUserState::SignedIn => 0,
            XUserState::SigningOut => 1,
            XUserState::SignedOut => 2,
        }
    }

    /// Whether `v` stands for a variant.
    pub open spec fn spec_is_value(v: u32) -> bool {
        v == 0 || v == 1 || v == 2
    }

    /// Returns the value that stands for it in the runtime's ABI.
    pub fn value(&self) -> (v: u32)
        ensures
            v == self.spec_value(),
    {
        match self {
            XUserState::SignedIn => 0,
            XUserState::SigningOut => 1,
            XUserState::SignedOut => 2,
        }
    }

    /// Returns the variant that `v` stands for, if there is one.
    pub fn from_value(v: u32) -> (r: Option<XUserState>)
        ensures
            r matches Some(e) ==> e.spec_value() == v,
            r is None <==> !XUserState::spec_is_value(v),
    {
        if v == 0 {
            Some(XUserState::SignedIn)
        } else if v == 1 {
            Some(XUserState::SigningOut)
        } else if v == 2 {
            Some(XUserState::SignedOut)
        } else {
            None
        }
    }
}

/// How a platform operation ended.
#[derive(Clone, Copy, Debug, PartialEq, Eq, Structural)]
pub enum XUserPlatformOperationResult {
    Success,
    Failure,
    Canceled,
}

/// The numeric values of `XUserPlatformOperationResult` that the ABI fixes:
/// `Success` is 0, `Failure` is 1, `Canceled` is 2.
/// Each value belongs to one variant only.
pub proof fn law_x_user_platform_operation_result_abi_values(m: XUserPlatformOperationResult)
    ensures
        (m.spec_value() == 0u32) <==> (m == XUserPlatformOperationResult::Success),
        (m.spec_value() == 1u32) <==> (m == XUserPlatformOperationResult::Failure),
        (m.spec_value() == 2u32) <==> (m == XUserPlatformOperationResult::Canceled),
{
}

impl XUserPlatformOperationResult {
    /// The value that stands for it in the runtime's ABI.
    pub open spec fn spec_value(self) -> u32 {
        match self {
            XUserPlatformOperationResult::Success => 0,
            XUserPlatformOperationResult::Failure => 1,
            XUserPlatformOperationResult::Canceled => 2,
        }
    }

    /// Whether `v` stands for a variant.
    pub open spec fn spec_is_value(v: u32) -> bool {
        v == 0 || v == 1 || v == 2
    }

    /// Returns the value that stands for it in the runtime's ABI.
    pub fn value(&self) -> (v: u32)
        ensures
            v == self.spec_value(),
    {
        match self {
            XUserPlatformOperationResult::Success => 0,
            XUserPlatformOperationResult::Failure => 1,
            XUserPlatformOperationResult::Canceled => 2,
        }
    }

    /// Returns the variant that `v` stands for, if there is one.
    pub fn from_value(v: u32) -> (r: Option<XUserPlatformOperationResult>)
        ensures
            r matches Some(e) ==> e.spec_value() == v,
            r is None <==> !XUserPlatformOperationResult::spec_is_value(v),
    {
        if v == 0 {
            Some(XUserPlatformOperationResult::Success)
        } else if v == 1 {
            Some(XUserPlatformOperationResult::Failure)
        } else if v == 2 {
            Some(XUserPlatformOperationResult::Canceled)
        } else {
            None
        }
    }
}

/// How a single-point-of-presence prompt ended.
#[derive(Clone, Copy, Debug, PartialEq, Eq, Structural)]
pub enum XUserPlatformSpopOperationResult {
    SignInHere,
    SwitchAccount,
    Failure,
    Canceled,
}

/// The numeric values of `XUserPlatformSpopOperationResult` that the ABI
/// fixes: `SignInHere` is 0, `SwitchAccount` is 1, `Failure` is 2, `Canceled`
/// is 3.
/// Each value belongs to one variant only.
pub proof fn law_x_user_platform_spop_operation_result_abi_values(m: XUserPlatformSpopOperationResult)
    ensures
        (m.spec_value() == 0u32) <==> (m == XUserPlatformSpopOperationResult::SignInHere),
        (m.spec_value() == 1u32) <==> (m == XUserPlatformSpopOperationResult::SwitchAccount),
        (m.spec_value() == 2u32) <==> (m == XUserPlatformSpopOperationResult::Failure),
        (m.spec_value() == 3u32) <==> (m == XUserPlatformSpopOperationResult::Canceled),
{
}

impl XUserPlatformSpopOperationResult {
    /// The value that stands for it in the runtime's ABI.
    pub open spec fn spec_value(self) -> u32 {
        match self {
            XUserPlatformSpopOperationResult::SignInHere => 0,
            XUserPlatformSpopOperationResult::SwitchAccount => 1,
            XUserPlatformSpopOperationResult::Failure => 2,
            XUserPlatformSpopOperationResult::Canceled => 3,
        }
    }

    /// Whether `v` stands for a variant.
    pub open spec fn spec_is_value(v: u32) -> bool {
        v == 0 || v == 1 || v == 2 || v == 3
    }

    /// Returns the value that stands for it in the runtime's ABI.
    pub fn value(&self) -> (v: u32)
        ensures
            v == self.spec_value(),
    {
        match self {
            XUserPlatformSpopOperationResult::SignInHere => 0,
            XUserPlatformSpopOperationResult::SwitchAccount => 1,
            XUserPlatformSpopOperationResult::Failure => 2,
            XUserPlatformSpopOperationResult::Canceled => 3,
        }
    }

    /// Returns the variant that `v` stands for, if there is one.
    pub fn from_value(v: u32) -> (r: Option<XUserPlatformSpopOperationResult>)
        ensures
            r matches Some(e) ==> e.spec_value() == v,
            r is None <==> !XUserPlatformSpopOperationResult::spec_is_value(v),
    {
        if v == 0 {
            Some(XUserPlatformSpopOperationResult::SignInHere)
        } else if v == 1 {
            Some(XUserPlatformSpopOperationResult::SwitchAccount)
        } else if v == 2 {
            Some(XUserPlatformSpopOperationResult::Failure)
        } else if v == 3 {
            Some(XUserPlatformSpopOperationResult::Canceled)
        } else {
            None
        }
    }
}

/// A local user id.
#[derive(Clone, Copy, Debug, PartialEq, Eq, Structural)]
pub struct XUserLocalId {
    pub value: u64,
}

/// An app-local device id.
#[derive(Clone, Copy, Debug)]
pub struct AppLocalDeviceId {
    pub value: [u8; 16],
}

/// A device that passed from one user to another.
#[derive(Clone, Copy, Debug)]
pub struct XUserDeviceAssociationChange {
    pub device_id: AppLocalDeviceId,
    pub old_user: XUserLocalId,
    pub new_user: XUserLocalId,
}

/// The header of a token-and-signature result in UTF-8. The pointer fields
/// are held as offsets from the start of the result buffer; `None` stands
/// for a null pointer.
#[derive(Clone, Copy, Debug, PartialEq, Eq, Structural)]
pub struct XUserGetTokenAndSignatureData {
    pub token_size: usize,
    pub signature_size: usize,
    pub token: Option<usize>,
    pub signature: Option<usize>,
}

/// The header of a token-and-signature result in UTF-16. The pointer fields
/// are held as offsets (in bytes) from the start of the result buffer;
/// `None` stands for a null pointer.
#[derive(Clone, Copy, Debug, PartialEq, Eq, Structural)]
pub struct XUserGetTokenAndSignatureUtf16Data {
    pub token_count: usize,
    pub signature_count: usize,
    pub token: Option<usize>,
    pub signature: Option<usize>,
}

/// An HTTP header handed to a token request in UTF-16: the code units of its
/// name and value, without the closing NUL.
#[derive(Clone, Debug)]
pub struct XUserGetTokenAndSignatureUtf16HttpHeader {
    pub name: Vec<u16>,
    pub value: Vec<u16>,
}

/// The size in bytes of either header of a token-and-signature result: two
/// sizes and two pointers of 8 bytes each.
pub const TOKEN_RESULT_HEADER_SIZE: usize = 32;

/// `str::encode_utf16`: each character as one code unit, or as a surrogate
/// pair above the basic multilingual plane.
pub open spec fn spec_encode_utf16(s: Seq<char>) -> Seq<u16>
    decreases s.len(),
{
    if s.len() == 0 {
        Seq::<u16>::empty()
    } else {
        let v = s[0] as u32;
        let head = if v < 0x10000 {
            seq![v as u16]
        } else {
            seq![(0xD800 + (v - 0x10000) / 0x400) as u16, (0xDC00 + (v - 0x10000) % 0x400) as u16]
        };
        head + spec_encode_utf16(s.drop_first())
    }
}

proof fn lemma_encode_utf16_step(s: Seq<char>, i: int)
    requires
        0 <= i < s.len(),
    ensures
        spec_encode_utf16(s.subrange(0, i + 1)) == spec_encode_utf16(s.subrange(0, i)) + spec_encode_utf16(seq![s[i]]),
    decreases i,
{
    let a = s.subrange(0, i + 1);
    if i == 0 {
        assert(a =~= seq![s[0]]);
        assert(s.subrange(0, 0) =~= Seq::<char>::empty());
        assert(spec_encode_utf16(seq![s[0]]).len() >= 0);
        assert(spec_encode_utf16(Seq::<char>::empty()) =~= Seq::<u16>::empty());
        assert(spec_encode_utf16(a) =~= spec_encode_utf16(Seq::<char>::empty()) + spec_encode_utf16(seq![s[i]]));
    } else {
        let t = s.drop_first();
        lemma_encode_utf16_step(t, i - 1);
        assert(a.drop_first() =~= t.subrange(0, i));
        assert(s.subrange(0, i).drop_first() =~= t.subrange(0, i - 1));
        assert(a[0] == s[0] && s.subrange(0, i)[0] == s[0]);
        assert(t[i - 1] == s[i]);
        assert(spec_encode_utf16(a) =~= spec_encode_utf16(s.subrange(0, i)) + spec_encode_utf16(seq![s[i]]));
    }
}

/// The UTF-16 code units of a character.
fn encode_char_utf16(c: char, out: &mut Vec<u16>)
    ensures
        final(out)@ == old(out)@ + spec_encode_utf16(seq![c]),
{
    let v = c as u32;
    proof {
        assert(seq![c].drop_first() =~= Seq::<char>::empty());
        assert(seq![c][0] == c);
        assert(spec_encode_utf16(Seq::<char>::empty()) =~= Seq::<u16>::empty());
        assert(spec_encode_utf16(seq![c].drop_first()) =~= Seq::<u16>::empty());
    }
    if v < 0x10000 {
        out.push(v as u16);
        assert(spec_encode_utf16(seq![c]) =~= seq![v as u16]);
    } else {
        assert(v <= 0x10FFFF);
        let hi = (0xD800 + (v - 0x10000) / 0x400) as u16;
        let lo = (0xDC00 + (v - 0x10000) % 0x400) as u16;
        out.push(hi);
        out.push(lo);
        assert(spec_encode_utf16(seq![c]) =~= seq![hi, lo]);
    }
}

/// `str::encode_utf16`, collected.
pub fn encode_utf16(s: &str) -> (r: Vec<u16>)
    ensures
        r@ == spec_encode_utf16(s@),
{
    let n = s.unicode_len();
    let mut out: Vec<u16> = Vec::new();
    let mut i: usize = 0;
    assert(s@.subrange(0, 0) =~= Seq::<char>::empty());
    while i < n
        invariant
            n == s@.len(),
            i <= n,
            out@ == spec_encode_utf16(s@.subrange(0, i as int)),
        decreases n - i,
    {
        let c = s.get_char(i);
        proof {
            lemma_encode_utf16_step(s@, i as int);
        }
        encode_char_utf16(c, &mut out);
        i = i + 1;
    }
    assert(s@.subrange(0, n as int) =~= s@);
    out
}

/// A token-and-signature result laid out for the caller's buffer: the size
/// asked for, the header, and what follows the header.
#[derive(Clone, Debug)]
pub struct Utf8TokenResult {
    pub size: usize,
    pub data: XUserGetTokenAndSignatureData,
    pub token: Vec<u8>,
}

/// A token-and-signature result in UTF-16 laid out for the caller's buffer:
/// the size asked for, the header, and the code units after the header.
#[derive(Clone, Debug)]
pub struct Utf16TokenResult {
    pub size: usize,
    pub data: XUserGetTokenAndSignatureUtf16Data,
    pub token: Vec<u16>,
}

/// Lays out an authorization token as a token-and-signature result: the
/// header, then the token's bytes and a closing zero, no signature.
/// `token_size` counts the zero. The size asked for is the header plus the
/// token's bytes with the zero. `None` when the size does not fit in
/// `usize`.
pub fn utf8_token_result(token: &str) -> (r: Option<Utf8TokenResult>)
    ensures
        match r {
            Some(t) => {
                &&& t.size == TOKEN_RESULT_HEADER_SIZE + vstd::utf8::encode_utf8(token@).len() + 1
                &&& t.data == XUserGetTokenAndSignatureData {
                    token_size: (vstd::utf8::encode_utf8(token@).len() + 1) as usize,
                    signature_size: 0,
                    token: Some(TOKEN_RESULT_HEADER_SIZE),
                    signature: None,
                }
                &&& t.token@ == vstd::utf8::encode_utf8(token@).push(0u8)
                &&& t.size == TOKEN_RESULT_HEADER_SIZE + t.token@.len()
            },
            None => TOKEN_RESULT_HEADER_SIZE + vstd::utf8::encode_utf8(token@).len() + 1 > usize::MAX,
        },
{
    let bytes = token.as_bytes();
    let len = bytes.len();
    if len > usize::MAX - TOKEN_RESULT_HEADER_SIZE - 1 {
        return None;
    }
    let mut out: Vec<u8> = Vec::new();
    let mut i: usize = 0;
    while i < len
        invariant
            len == bytes@.len(),
            i <= len,
            out@ == bytes@.subrange(0, i as int),
        decreases len - i,
    {
        out.push(bytes[i]);
        i = i + 1;
        assert(out@ =~= bytes@.subrange(0, i as int));
    }
    assert(bytes@.subrange(0, len as int) =~= bytes@);
    out.push(0u8);
    Some(Utf8TokenResult {
        size: TOKEN_RESULT_HEADER_SIZE + len + 1,
        data: XUserGetTokenAndSignatureData {
            token_size: len + 1,
            signature_size: 0,
            token: Some(TOKEN_RESULT_HEADER_SIZE),
            signature: None,
        },
        token: out,
    })
}

/// Lays out an authorization token as a UTF-16 token-and-signature result:
/// the header, then the token's code units and a closing zero, no
/// signature. `token_count` counts the zero. The size asked for, in bytes,
/// is the header plus two bytes for each of those code units. `None` when
/// the size does not fit in `usize`.
pub fn utf16_token_result(token: &str) -> (r: Option<Utf16TokenResult>)
    ensures
        match r {
            Some(t) => {
                &&& t.size == TOKEN_RESULT_HEADER_SIZE + 2 * (spec_encode_utf16(token@).len() + 1)
                &&& t.data == XUserGetTokenAndSignatureUtf16Data {
                    token_count: (spec_encode_utf16(token@).len() + 1) as usize,
                    signature_count: 0,
                    token: Some(TOKEN_RESULT_HEADER_SIZE),
                    signature: None,
                }
                &&& t.token@ == spec_encode_utf16(token@).push(0u16)
                &&& t.size == TOKEN_RESULT_HEADER_SIZE + 2 * t.token@.len()
            },
            None => TOKEN_RESULT_HEADER_SIZE + 2 * (spec_encode_utf16(token@).len() + 1) > usize::MAX,
        },
{
    let mut units = encode_utf16(token);
    let count = units.len();
    if count >= (usize::MAX - TOKEN_RESULT_HEADER_SIZE) / 2 {
        return None;
    }
    units.push(0u16);
    Some(Utf16TokenResult {
        size: TOKEN_RESULT_HEADER_SIZE + 2 * (count + 1),
        data: XUserGetTokenAndSignatureUtf16Data {
            token_count: count + 1,
            signature_count: 0,
            token: Some(TOKEN_RESULT_HEADER_SIZE),
            signature: None,
        },
        token: units,
    })
}

/// What `XUserCompare` answers for two users' xuids: `0xFFFFFFFF` when the
/// first is smaller, `0` when equal, `1` when greater; `1` when either
/// handle is not a user.
pub open spec fn spec_user_compare(a: Option<u64>, b: Option<u64>) -> u32 {
    match (a, b) {
        (Some(x), Some(y)) => if x < y {
            0xFFFF_FFFFu32
        } else if x == y {
            0u32
        } else {
            1u32
        },
        _ => 1u32,
    }
}

/// A signed-in user as the runtime holds it.
#[derive(Clone, Copy, Debug, PartialEq, Eq, Structural)]
pub struct XUserHandleInfo {
    pub xuid: u64,
    pub local_id: XUserLocalId,
}

/// The gamertag that every user reports, with its closing NUL.
pub open spec fn spec_gamertag() -> Seq<u8> {
    seq![67u8, 104, 114, 105, 115, 116, 111, 112, 104, 101, 114, 72, 88, 0]
}

/// The user interface, whose calls `XUser` answers.
pub trait IXUser {}

/// The user interface under its third id.
pub trait IXUser3: IXUser {}

/// The user interface under its fourth id.
pub trait IXUser4: IXUser {}

/// The user interface under its fifth id.
pub trait IXUser5: IXUser {}

/// The user interface under its sixth id.
pub trait IXUser6: IXUser {}

/// The user object: the user added last, if any.
#[derive(Clone, Copy, Debug)]
pub struct XUser {
    pub handle: Option<XUserHandleInfo>,
}

impl IXUser for XUser {}

impl IXUser3 for XUser {}

impl IXUser4 for XUser {}

impl IXUser5 for XUser {}

impl IXUser6 for XUser {}

impl XUser {
    /// A user object with no user added.
    pub fn new() -> (u: XUser)
        ensures
            u.handle is None,
    {
        XUser { handle: None }
    }

    /// `XUserCompare` on the xuids of two handles (`None` for a handle that
    /// is not a user).
    pub fn x_user_compare(&self, user1: Option<u64>, user2: Option<u64>) -> (r: u32)
        ensures
            r == spec_user_compare(user1, user2),
    {
        match (user1, user2) {
            (Some(a), Some(b)) => if a < b {
                0xFFFF_FFFF
            } else if a == b {
                0
            } else {
                1
            },
            _ => 1,
        }
    }

    /// `XUserDuplicateHandle`: the same user again; `E_FAIL` for a handle
    /// that is not a user.
    pub fn x_user_duplicate_handle(&self, handle: Option<XUserHandleInfo>) -> (r: Result<XUserHandleInfo, i32>)
        ensures
            r == (match handle {
                Some(h) => Ok::<XUserHandleInfo, i32>(h),
                None => Err::<XUserHandleInfo, i32>(E_FAIL),
            }),
    {
        match handle {
            Some(h) => Ok(h),
            None => Err(E_FAIL),
        }
    }

    /// `XUserGetMaxUsers`: four.
    pub fn x_user_get_max_users(&self) -> (r: (i32, u32))
        ensures
            r == (S_OK, 4u32),
    {
        (S_OK, 4)
    }

    /// `XUserAddAsync` in a build without online sign-in: the block is begun
    /// (see `run_begin`); its work later fails with `E_ABORT`
    /// (`x_user_add_work`).
    pub fn x_user_add_async(&self, block_present: bool, block: &mut XAsyncBlock) -> (hr: i32)
        requires
            old(block).wf(),
            block_present ==> spec_word_magic(old(block).magic_result) != XASYNC_INITIALIZE_MAGIC,
        ensures
            final(block).wf(),
            !block_present ==> hr == S_OK && *final(block) == *old(block),
            block_present ==> (*final(block), hr) == spec_begin(*old(block), true),
    {
        run_begin(block_present, block)
    }

    /// The work of `XUserAddAsync` in a build without online sign-in: it
    /// finishes at once with `E_ABORT`.
    pub fn x_user_add_work(&self) -> (o: XAsyncWorkOutcome<Option<XUserHandleInfo>>)
        ensures
            o == XAsyncWorkOutcome::<Option<XUserHandleInfo>>::Ready(Err(E_ABORT)),
    {
        XAsyncWorkOutcome::Ready(Err(E_ABORT))
    }

    /// `XUserAddResult`: reads the block's result, from the provider's
    /// context `ctx`, into `new_user` (see `get_result`); on success the
    /// user read is kept as the object's user and `S_OK` answered, otherwise
    /// the failure is answered. A success that leaves `new_user` without a
    /// user is not accepted.
    pub fn x_user_add_result(
        &mut self,
        block: &mut XAsyncBlock,
        ctx: &XAsyncProviderContext<Option<XUserHandleInfo>>,
        new_user: &mut Option<XUserHandleInfo>,
    ) -> (hr: i32)
        requires
            old(block).wf(),
            spec_read_result(*old(block), *ctx, *old(new_user)).0 is Ok ==> spec_read_result(
                *old(block),
                *ctx,
                *old(new_user),
            ).1 is Some,
        ensures
            final(block).wf(),
            *final(block) == spec_get_result(*old(block)),
            ({
                let (res, user) = spec_read_result(*old(block), *ctx, *old(new_user));
                &&& *final(new_user) == user
                &&& hr == (match res {
                    Ok(_) => S_OK,
                    Err(e) => e,
                })
                &&& final(self).handle == (if res is Ok { user } else { old(self).handle })
            }),
    {
        match get_result(block, ctx, new_user) {
            Ok(()) => {
                self.handle = *new_user;
                S_OK
            },
            Err(e) => e,
        }
    }

    /// `XUserGetLocalId`: `E_FAIL` for a handle that is not a user.
    pub fn x_user_get_local_id(&self, handle: Option<XUserHandleInfo>) -> (r: Result<XUserLocalId, i32>)
        ensures
            r == (match handle {
                Some(h) => Ok::<XUserLocalId, i32>(h.local_id),
                None => Err::<XUserLocalId, i32>(E_FAIL),
            }),
    {
        match handle {
            Some(h) => Ok(h.local_id),
            None => Err(E_FAIL),
        }
    }

    /// `XUserFindUserByLocalId`: no user is found.
    pub fn x_user_find_user_by_local_id(&self, user_local_id: XUserLocalId) -> (hr: i32)
        ensures
            hr == E_FAIL,
    {
        E_FAIL
    }

    /// `XUserGetId`: the xuid; `E_FAIL` for a handle that is not a user.
    pub fn x_user_get_id(&self, handle: Option<XUserHandleInfo>) -> (r: Result<u64, i32>)
        ensures
            r == (match handle {
                Some(h) => Ok::<u64, i32>(h.xuid),
                None => Err::<u64, i32>(E_FAIL),
            }),
    {
        match handle {
            Some(h) => Ok(h.xuid),
            None => Err(E_FAIL),
        }
    }

    /// `XUserFindUserById`: no user is found.
    pub fn x_user_find_user_by_id(&self, user_id: u64) -> (hr: i32)
        ensures
            hr == E_FAIL,
    {
        E_FAIL
    }

    /// `XUserGetIsGuest`: no user is a guest.
    pub fn x_user_get_is_guest(&self) -> (r: (i32, u8))
        ensures
            r == (S_OK, 0u8),
    {
        (S_OK, 0)
    }

    /// `XUserGetState`: every user is signed in.
    pub fn x_user_get_state(&self) -> (r: (i32, XUserState))
        ensures
            r == (S_OK, XUserState::SignedIn),
    {
        (S_OK, XUserState::SignedIn)
    }

    /// `XUserGetAgeGroup`: every user is an adult.
    pub fn x_user_get_age_group(&self) -> (r: (i32, XUserAgeGroup))
        ensures
            r == (S_OK, XUserAgeGroup::Adult),
    {
        (S_OK, XUserAgeGroup::Adult)
    }

    /// `XUserCheckPrivilege`: every privilege is held, with no deny reason.
    pub fn x_user_check_privilege(&self, options: XUserPrivilegeOptions, privilege: XUserPrivilege) -> (r: (i32, u8, XUserPrivilegeDenyReason))
        ensures
            r == (S_OK, 1u8, XUserPrivilegeDenyReason::NoReason),
    {
        (S_OK, 1, XUserPrivilegeDenyReason::NoReason)
    }

    /// `XUserGetTokenAndSignatureAsync` (both encodings) in a build without
    /// online sign-in: not implemented.
    pub fn x_user_get_token_and_signature_async(&self) -> (hr: i32)
        ensures
            hr == E_NOTIMPL,
    {
        E_NOTIMPL
    }

    /// `XUserGetTokenAndSignature[Utf16]ResultSize`: `E_POINTER` without an
    /// out pointer; otherwise the block's result size.
    pub fn x_user_get_token_and_signature_result_size(&self, block: &XAsyncBlock, buffer_size_present: bool) -> (r: Result<usize, i32>)
        requires
            block.wf(),
        ensures
            r == (if buffer_size_present {
                spec_result_size(*block, true)
            } else {
                Err::<usize, i32>(E_POINTER)
            }),
    {
        if !buffer_size_present {
            return Err(E_POINTER);
        }
        block.x_async_get_result_size(true)
    }

    /// `XUserGetTokenAndSignature[Utf16]Result`: reads the block's result;
    /// when it is copied into the buffer, the answer is `S_OK` and the
    /// result pointer (if asked for) is the buffer itself.
    pub fn x_user_get_token_and_signature_result(&self, block: &mut XAsyncBlock) -> (step: XAsyncResultStep)
        requires
            old(block).wf(),
        ensures
            final(block).wf(),
            step == spec_result_step(*old(block)),
            *final(block) == spec_get_result(*old(block)),
    {
        block.x_async_get_result()
    }

    /// `XUserRegisterForChangeEvent` and `XUserUnregisterForChangeEvent`:
    /// accepted, nothing is ever signalled.
    pub fn x_user_register_for_change_event(&self) -> (hr: i32)
        ensures
            hr == S_OK,
    {
        S_OK
    }

    /// `XUserGetGamertag`: writes the fixed gamertag and its closing NUL
    /// into the first fourteen bytes of the buffer, whatever component is
    /// asked for; reports thirteen bytes used when asked.
    pub fn x_user_get_gamertag(&self, gamertag: &mut Vec<u8>, used_present: bool) -> (r: (i32, Option<usize>))
        requires
            old(gamertag)@.len() >= 14,
        ensures
            final(gamertag)@.len() == old(gamertag)@.len(),
            final(gamertag)@.subrange(0, 14) == spec_gamertag(),
            final(gamertag)@.subrange(14, old(gamertag)@.len() as int) == old(gamertag)@.subrange(14, old(gamertag)@.len() as int),
            r == (S_OK, if used_present { Some(13usize) } else { None::<usize> }),
    {
        let tag: [u8; 14] = [67, 104, 114, 105, 115, 116, 111, 112, 104, 101, 114, 72, 88, 0];
        assert(tag@ =~= spec_gamertag());
        let mut i: usize = 0;
        while i < 14
            invariant
                i <= 14,
                old(gamertag)@.len() >= 14,
                tag@ == spec_gamertag(),
                gamertag@.len() == old(gamertag)@.len(),
                forall|k: int| 0 <= k < i ==> gamertag@[k] == tag@[k],
                forall|k: int| i <= k < gamertag@.len() ==> gamertag@[k] == old(gamertag)@[k],
            decreases 14 - i,
        {
            gamertag.set(i, tag[i]);
            assert(gamertag@[i as int] == tag@[i as int]);
            i = i + 1;
        }
        assert(gamertag@.subrange(0, 14) =~= spec_gamertag());
        assert(gamertag@.subrange(14, old(gamertag)@.len() as int) =~= old(gamertag)@.subrange(14, old(gamertag)@.len() as int));
        (S_OK, if used_present { Some(13) } else { None })
    }
}

/// Comparing users is antisymmetric: the first user is smaller exactly when
/// the second, compared with the first, is greater; a user equals itself.
pub proof fn law_user_compare_antisymmetric(a: u64, b: u64)
    ensures
        spec_user_compare(Some(a), Some(b)) == 0xFFFF_FFFFu32 <==> spec_user_compare(Some(b), Some(a)) == 1u32,
        spec_user_compare(Some(a), Some(a)) == 0u32,
{
}

/// The one user object of the process.
pub fn xuser_singleton() -> (u: XUser)
    ensures
        u.handle is None,
{
    XUser::new()
}

/// The value of a decimal digit, if `c` is one.
pub open spec fn spec_decimal_digit(c: char) -> Option<int> {
    if '0' <= c && c <= '9' {
        Some(c as int - '0' as int)
    } else {
        None
    }
}

/// Every character is a decimal digit.
pub open spec fn spec_all_decimal(ds: Seq<char>) -> bool {
    forall|i: int| 0 <= i < ds.len() ==> spec_decimal_digit(#[trigger] ds[i]) is Some
}

/// The value of a string of decimal digits.
pub open spec fn spec_decimal_value(ds: Seq<char>) -> int
    decreases ds.len(),
{
    if ds.len() == 0 {
        0
    } else {
        spec_decimal_value(ds.drop_last()) * 10 + match spec_decimal_digit(ds.last()) {
            Some(d) => d,
            None => 0,
        }
    }
}

/// `str::parse::<u64>`: an optional `+`, then at least one decimal digit,
/// with a value that fits in a `u64`.
pub open spec fn spec_parse_u64(s: Seq<char>) -> Option<u64> {
    let ds = if s.len() > 0 && s[0] == '+' { s.drop_first() } else { s };
    if ds.len() == 0 || !spec_all_decimal(ds) {
        None
    } else if spec_decimal_value(ds) <= u64::MAX {
        Some(spec_decimal_value(ds) as u64)
    } else {
        None
    }
}

proof fn lemma_decimal_value_step(ds: Seq<char>, i: int)
    requires
        0 <= i < ds.len(),
    ensures
        spec_decimal_value(ds.subrange(0, i + 1)) == spec_decimal_value(ds.subrange(0, i)) * 10
            + match spec_decimal_digit(ds[i]) { Some(d) => d, None => 0 },
{
    let p = ds.subrange(0, i + 1);
    assert(p.drop_last() =~= ds.subrange(0, i));
    assert(p.last() == ds[i]);
}

proof fn lemma_decimal_value_grows(ds: Seq<char>, j: int)
    requires
        0 <= j <= ds.len(),
    ensures
        spec_decimal_value(ds) >= spec_decimal_value(ds.subrange(0, j)),
        spec_decimal_value(ds.subrange(0, j)) >= 0,
    decreases ds.len() - j,
{
    lemma_decimal_value_nonneg(ds.subrange(0, j));
    if j < ds.len() {
        lemma_decimal_value_step(ds, j);
        lemma_decimal_value_nonneg(ds.subrange(0, j + 1));
        lemma_decimal_value_grows(ds, j + 1);
    } else {
        assert(ds.subrange(0, j) =~= ds);
    }
}

proof fn lemma_decimal_value_nonneg(ds: Seq<char>)
    ensures
        spec_decimal_value(ds) >= 0,
    decreases ds.len(),
{
    if ds.len() > 0 {
        lemma_decimal_value_nonneg(ds.drop_last());
    }
}

/// `str::parse::<u64>`, with `None` for every input it rejects.
#[verifier::loop_isolation(false)]
pub fn parse_u64(s: &str) -> (r: Option<u64>)
    ensures
        r == spec_parse_u64(s@),
{
    let n = s.unicode_len();
    let start: usize = if n > 0 && s.get_char(0) == '+' { 1 } else { 0 };
    let ghost ds = if s@.len() > 0 && s@[0] == '+' { s@.drop_first() } else { s@ };
    assert(ds =~= s@.subrange(start as int, n as int));
    if start == n {
        return None;
    }
    let mut acc: u64 = 0;
    let mut i: usize = start;
    while i < n
        invariant
            n == s@.len(),
            start <= i <= n,
            ds == s@.subrange(start as int, n as int),
            acc as int == spec_decimal_value(ds.subrange(0, i - start)),
            forall|k: int| 0 <= k < i - start ==> spec_decimal_digit(#[trigger] ds[k]) is Some,
        decreases n - i,
    {
        let c = s.get_char(i);
        assert(c == ds[i - start]);
        if !('0' <= c && c <= '9') {
            assert(spec_decimal_digit(ds[i - start]) is None);
            assert(!spec_all_decimal(ds));
            return None;
        }
        let d: u64 = ((c as u32) - ('0' as u32)) as u64;
        proof {
            lemma_decimal_value_step(ds, i - start);
        }
        if acc > (u64::MAX - d) / 10 {
            proof {
                assert(acc * 10 + d > u64::MAX) by (nonlinear_arith)
                    requires
                        acc > (u64::MAX - d) / 10,
                        d <= 9,
                ;
                lemma_decimal_value_grows(ds, i - start + 1);
            }
            return None;
        }
        assert(acc * 10 + d <= u64::MAX) by (nonlinear_arith)
            requires
                acc <= (u64::MAX - d) / 10,
                d <= 9,
        ;
        acc = acc * 10 + d;
        i = i + 1;
    }
    assert(ds.subrange(0, n - start) =~= ds);
    Some(acc)
}

/// The local id given to a user signed in online.
pub const SIGNED_IN_LOCAL_ID: u64 = 987654321;

/// The user that online sign-in yields for the `xid` claim of its
/// authorization token: the claim read as a decimal xuid, with the fixed
/// local id. `None` when the claim is not a decimal `u64`.
pub fn user_from_xid_claim(xid: &str) -> (r: Option<XUserHandleInfo>)
    ensures
        r == (match spec_parse_u64(xid@) {
            Some(x) => Some(XUserHandleInfo { xuid: x, local_id: XUserLocalId { value: SIGNED_IN_LOCAL_ID } }),
            None => None::<XUserHandleInfo>,
        }),
{
    match parse_u64(xid) {
        Some(x) => Some(XUserHandleInfo { xuid: x, local_id: XUserLocalId { value: SIGNED_IN_LOCAL_ID } }),
        None => None,
    }
}

} // verus!
