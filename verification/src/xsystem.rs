//! Values of the system API.
use vstd::prelude::*;

verus! {

/// The kind of a tracked handle.
#[derive(Clone, Copy, Debug, PartialEq, Eq, Structural)]
pub enum XSystemHandleType {
    AppCaptureScreenshotStream,
    DisplayTimeoutDeferral,
    GameSaveContainer,
    GameSaveProvider,
    GameSaveUpdate,
    PackageInstallationMonitor,
    PackageMount,
    SpeechSynthesizer,
    SpeechSynthesizerStream,
    StoreContext,
    StoreLicense,
    StoreProductQuery,
    TaskQueue,
    User,
    UserSignOutDeferral,
    GameUiTextEntry,
}

/// The numeric values of `XSystemHandleType` that the ABI fixes:
/// `AppCaptureScreenshotStream` is 0x00, `DisplayTimeoutDeferral` is 0x01,
/// `GameSaveContainer` is 0x02, `GameSaveProvider` is 0x03, `GameSaveUpdate`
/// is 0x04, `PackageInstallationMonitor` is 0x05, `PackageMount` is 0x06,
/// `SpeechSynthesizer` is 0x07, `SpeechSynthesizerStream` is 0x08,
/// `StoreContext` is 0x09, `StoreLicense` is 0x0a, `StoreProductQuery` is
/// 0x0b, `TaskQueue` is 0x0c, `User` is 0x0d, `UserSignOutDeferral` is 0x0e,
/// `GameUiTextEntry` is 0x0f.
/// Each value belongs to one variant only.
pub proof fn law_x_system_handle_type_abi_values(m: XSystemHandleType)
    ensures
        (m.spec_value() == 0x00u32) <==> (m == XSystemHandleType::AppCaptureScreenshotStream),
        (m.spec_value() == 0x01u32) <==> (m == XSystemHandleType::DisplayTimeoutDeferral),
        (m.spec_value() == 0x02u32) <==> (m == XSystemHandleType::GameSaveContainer),
        (m.spec_value() == 0x03u32) <==> (m == XSystemHandleType::GameSaveProvider),
        (m.spec_value() == 0x04u32) <==> (m == XSystemHandleType::GameSaveUpdate),
        (m.spec_value() == 0x05u32) <==> (m == XSystemHandleType::PackageInstallationMonitor),
        (m.spec_value() == 0x06u32) <==> (m == XSystemHandleType::PackageMount),
        (m.spec_value() == 0x07u32) <==> (m == XSystemHandleType::SpeechSynthesizer),
        (m.spec_value() == 0x08u32) <==> (m == XSystemHandleType::SpeechSynthesizerStream),
        (m.spec_value() == 0x09u32) <==> (m == XSystemHandleType::StoreContext),
        (m.spec_value() == 0x0au32) <==> (m == XSystemHandleType::StoreLicense),
        (m.spec_value() == 0x0bu32) <==> (m == XSystemHandleType::StoreProductQuery),
        (m.spec_value() == 0x0cu32) <==> (m == XSystemHandleType::TaskQueue),
        (m.spec_value() == 0x0du32) <==> (m == XSystemHandleType::User),
        (m.spec_value() == 0x0eu32) <==> (m == XSystemHandleType::UserSignOutDeferral),
        (m.spec_value() == 0x0fu32) <==> (m == XSystemHandleType::GameUiTextEntry),
{
}

impl XSystemHandleType {
    /// The value that stands for it in the runtime's ABI.
    pub open spec fn spec_value(self) -> u32 {
        match self {
            XSystemHandleType::AppCaptureScreenshotStream => 0x00,
            XSystemHandleType::DisplayTimeoutDeferral => 0x01,
            XSystemHandleType::GameSaveContainer => 0x02,
            XSystemHandleType::GameSaveProvider => 0x03,
            XSystemHandleType::GameSaveUpdate => 0x04,
            XSystemHandleType::PackageInstallationMonitor => 0x05,
            XSystemHandleType::PackageMount => 0x06,
            XSystemHandleType::SpeechSynthesizer => 0x07,
            XSystemHandleType::SpeechSynthesizerStream => 0x08,
            XSystemHandleType::StoreContext => 0x09,
            XSystemHandleType::StoreLicense => 0x0a,
            XSystemHandleType::StoreProductQuery => 0x0b,
            XSystemHandleType::TaskQueue => 0x0c,
            XSystemHandleType::User => 0x0d,
            XSystemHandleType::UserSignOutDeferral => 0x0e,
            XSystemHandleType::GameUiTextEntry => 0x0f,
        }
    }

    /// Whether `v` stands for a variant.
    pub open spec fn spec_is_value(v: u32) -> bool {
        v == 0x00 || v == 0x01 || v == 0x02 || v == 0x03 || v == 0x04 || v == 0x05 || v == 0x06 || v == 0x07 || v == 0x08 || v == 0x09 || v == 0x0a || v == 0x0b || v == 0x0c || v == 0x0d || v == 0x0e || v == 0x0f
    }

    /// Returns the value that stands for it in the runtime's ABI.
    pub fn value(&self) -> (v: u32)
        ensures
            v == self.spec_value(),
    {
        match self {
            XSystemHandleType::AppCaptureScreenshotStream => 0x00,
            XSystemHandleType::DisplayTimeoutDeferral => 0x01,
            XSystemHandleType::GameSaveContainer => 0x02,
            XSystemHandleType::GameSaveProvider => 0x03,
            XSystemHandleType::GameSaveUpdate => 0x04,
            XSystemHandleType::PackageInstallationMonitor => 0x05,
            XSystemHandleType::PackageMount => 0x06,
            XSystemHandleType::SpeechSynthesizer => 0x07,
            XSystemHandleType::SpeechSynthesizerStream => 0x08,
            XSystemHandleType::StoreContext => 0x09,
            XSystemHandleType::StoreLicense => 0x0a,
            XSystemHandleType::StoreProductQuery => 0x0b,
            XSystemHandleType::TaskQueue => 0x0c,
            XSystemHandleType::User => 0x0d,
            XSystemHandleType::UserSignOutDeferral => 0x0e,
            XSystemHandleType::GameUiTextEntry => 0x0f,
        }
    }

    /// Returns the variant that `v` stands for, if there is one.
    pub fn from_value(v: u32) -> (r: Option<XSystemHandleType>)
        ensures
            r matches Some(e) ==> e.spec_value() == v,
            r is None <==> !XSystemHandleType::spec_is_value(v),
    {
        if v == 0x00 {
            Some(XSystemHandleType::AppCaptureScreenshotStream)
        } else if v == 0x01 {
            Some(XSystemHandleType::DisplayTimeoutDeferral)
        } else if v == 0x02 {
            Some(XSystemHandleType::GameSaveContainer)
        } else if v == 0x03 {
            Some(XSystemHandleType::GameSaveProvider)
        } else if v == 0x04 {
            Some(XSystemHandleType::GameSaveUpdate)
        } else if v == 0x05 {
            Some(XSystemHandleType::PackageInstallationMonitor)
        } else if v == 0x06 {
            Some(XSystemHandleType::PackageMount)
        } else if v == 0x07 {
            Some(XSystemHandleType::SpeechSynthesizer)
        } else if v == 0x08 {
            Some(XSystemHandleType::SpeechSynthesizerStream)
        } else if v == 0x09 {
            Some(XSystemHandleType::StoreContext)
        } else if v == 0x0a {
            Some(XSystemHandleType::StoreLicense)
        } else if v == 0x0b {
            Some(XSystemHandleType::StoreProductQuery)
        } else if v == 0x0c {
            Some(XSystemHandleType::TaskQueue)
        } else if v == 0x0d {
            Some(XSystemHandleType::User)
        } else if v == 0x0e {
            Some(XSystemHandleType::UserSignOutDeferral)
        } else if v == 0x0f {
            Some(XSystemHandleType::GameUiTextEntry)
        } else {
            None
        }
    }
}
/// Why a handle callback is called.
#[derive(Clone, Copy, Debug, PartialEq, Eq, Structural)]
pub enum XSystemHandleCallbackReason {
    Created,
    Destroyed,
}

/// The numeric values of `XSystemHandleCallbackReason` that the ABI fixes:
/// `Created` is 0x00, `Destroyed` is 0x01.
/// Each value belongs to one variant only.
pub proof fn law_x_system_handle_callback_reason_abi_values(m: XSystemHandleCallbackReason)
    ensures
        (m.spec_value() == 0x00u32) <==> (m == XSystemHandleCallbackReason::Created),
        (m.spec_value() == 0x01u32) <==> (m == XSystemHandleCallbackReason::Destroyed),
{
}

impl XSystemHandleCallbackReason {
    /// The value that stands for it in the runtime's ABI.
    pub open spec fn spec_value(self) -> u32 {
        match self {
            XSystemHandleCallbackReason::Created => 0x00,
            XSystemHandleCallbackReason::Destroyed => 0x01,
        }
    }

    /// Whether `v` stands for a variant.
    pub open spec fn spec_is_value(v: u32) -> bool {
        v == 0x00 || v == 0x01
    }

    /// Returns the value that stands for it in the runtime's ABI.
    pub fn value(&self) -> (v: u32)
        ensures
            v == self.spec_value(),
    {
        match self {
            XSystemHandleCallbackReason::Created => 0x00,
            XSystemHandleCallbackReason::Destroyed => 0x01,
        }
    }

    /// Returns the variant that `v` stands for, if there is one.
    pub fn from_value(v: u32) -> (r: Option<XSystemHandleCallbackReason>)
        ensures
            r matches Some(e) ==> e.spec_value() == v,
            r is None <==> !XSystemHandleCallbackReason::spec_is_value(v),
    {
        if v == 0x00 {
            Some(XSystemHandleCallbackReason::Created)
        } else if v == 0x01 {
            Some(XSystemHandleCallbackReason::Destroyed)
        } else {
            None
        }
    }
}
/// The system interface, whose calls `XStub` answers.
pub trait IXSystem {}

/// The system interface under its second id.
pub trait IXSystem2: IXSystem {}

/// The system interface under its third id.
pub trait IXSystem3: IXSystem2 {}

/// The system interface under its fourth id.
pub trait IXSystem4: IXSystem3 {}

/// The system interface under its fifth id.
pub trait IXSystem5: IXSystem4 {}

} // verus!
