//! Options of the error reporting API.
use vstd::prelude::*;

verus! {

/// What the runtime does when an API call fails.
#[derive(Clone, Copy, Debug, PartialEq, Eq, Structural)]
pub enum XErrorOptions {
    /// Nothing (the ABI's `None`).
    NoOptions,
    OutputDebugStringOnError,
    DebugBreakOnError,
    FailFastOnError,
}

/// The numeric values of `XErrorOptions` that the ABI fixes: `NoOptions` is
/// 0x00, `OutputDebugStringOnError` is 0x01, `DebugBreakOnError` is 0x02,
/// `FailFastOnError` is 0x04.
/// Each value belongs to one variant only.
pub proof fn law_x_error_options_abi_values(m: XErrorOptions)
    ensures
        (m.spec_value() == 0x00u32) <==> (m == XErrorOptions::NoOptions),
        (m.spec_value() == 0x01u32) <==> (m == XErrorOptions::OutputDebugStringOnError),
        (m.spec_value() == 0x02u32) <==> (m == XErrorOptions::DebugBreakOnError),
        (m.spec_value() == 0x04u32) <==> (m == XErrorOptions::FailFastOnError),
{
}

impl XErrorOptions {
    /// The value that stands for it in the runtime's ABI.
    pub open spec fn spec_value(self) -> u32 {
        match self {
            XErrorOptions::NoOptions => 0x00,
            XErrorOptions::OutputDebugStringOnError => 0x01,
            XErrorOptions::DebugBreakOnError => 0x02,
            XErrorOptions::FailFastOnError => 0x04,
        }
    }

    /// Whether `v` stands for a variant.
    pub open spec fn spec_is_value(v: u32) -> bool {
        v == 0x00 || v == 0x01 || v == 0x02 || v == 0x04
    }

    /// Returns the value that stands for it in the runtime's ABI.
    pub fn value(&self) -> (v: u32)
        ensures
            v == self.spec_value(),
    {
        match self {
            XErrorOptions::NoOptions => 0x00,
            XErrorOptions::OutputDebugStringOnError => 0x01,
            XErrorOptions::DebugBreakOnError => 0x02,
            XErrorOptions::FailFastOnError => 0x04,
        }
    }

    /// Returns the variant that `v` stands for, if there is one.
    pub fn from_value(v: u32) -> (r: Option<XErrorOptions>)
        ensures
            r matches Some(e) ==> e.spec_value() == v,
            r is None <==> !XErrorOptions::spec_is_value(v),
    {
        if v == 0x00 {
            Some(XErrorOptions::NoOptions)
        } else if v == 0x01 {
            Some(XErrorOptions::OutputDebugStringOnError)
        } else if v == 0x02 {
            Some(XErrorOptions::DebugBreakOnError)
        } else if v == 0x04 {
            Some(XErrorOptions::FailFastOnError)
        } else {
            None
        }
    }
}
} // verus!
