//! Kinds of game activation.
use vstd::prelude::*;

verus! {

/// How a game was activated.
#[derive(Clone, Copy, Debug, PartialEq, Eq, Structural)]
pub enum XGameActivationType {
    Protocol,
    File,
    PendingGameInvite,
    AcceptedGameInvite,
}

/// The numeric values of `XGameActivationType` that the ABI fixes: `Protocol`
/// is 0, `File` is 1, `PendingGameInvite` is 2, `AcceptedGameInvite` is 3.
/// Each value belongs to one variant only.
pub proof fn law_x_game_activation_type_abi_values(m: XGameActivationType)
    ensures
        (m.spec_value() == 0u32) <==> (m == XGameActivationType::Protocol),
        (m.spec_value() == 1u32) <==> (m == XGameActivationType::File),
        (m.spec_value() == 2u32) <==> (m == XGameActivationType::PendingGameInvite),
        (m.spec_value() == 3u32) <==> (m == XGameActivationType::AcceptedGameInvite),
{
}

impl XGameActivationType {
    /// The value that stands for it in the runtime's ABI.
    pub open spec fn spec_value(self) -> u32 {
        match self {
            XGameActivationType::Protocol => 0,
            XGameActivationType::File => 1,
            XGameActivationType::PendingGameInvite => 2,
            XGameActivationType::AcceptedGameInvite => 3,
        }
    }

    /// Whether `v` stands for a variant.
    pub open spec fn spec_is_value(v: u32) -> bool {
        v == 0 || v == 1 || v == 2 || v == 3
    }

    /// Returns the value that stands for it in the runtime's ABI.
    pub fn value(&self) -> (v: u32)
        ensures
            v == self.spec_value(),
    {
        match self {
            XGameActivationType::Protocol => 0,
            XGameActivationType::File => 1,
            XGameActivationType::PendingGameInvite => 2,
            XGameActivationType::AcceptedGameInvite => 3,
        }
    }

    /// Returns the variant that `v` stands for, if there is one.
    pub fn from_value(v: u32) -> (r: Option<XGameActivationType>)
        ensures
            r matches Some(e) ==> e.spec_value() == v,
            r is None <==> !XGameActivationType::spec_is_value(v),
    {
        if v == 0 {
            Some(XGameActivationType::Protocol)
        } else if v == 1 {
            Some(XGameActivationType::File)
        } else if v == 2 {
            Some(XGameActivationType::PendingGameInvite)
        } else if v == 3 {
            Some(XGameActivationType::AcceptedGameInvite)
        } else {
            None
        }
    }
}
} // verus!
