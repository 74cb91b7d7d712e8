//! Values of the package API.
use vstd::prelude::*;

verus! {

/// Whether a chunk of a package can be used.
#[derive(Clone, Copy, Debug, PartialEq, Eq, Structural)]
pub enum XPackageChunkAvailability {
    Ready,
    Pending,
    Installable,
    Unavailable,
}

/// The numeric values of `XPackageChunkAvailability` that the ABI fixes:
/// `Ready` is 0, `Pending` is 1, `Installable` is 2, `Unavailable` is 3.
/// Each value belongs to one variant only.
pub proof fn law_x_package_chunk_availability_abi_values(m: XPackageChunkAvailability)
    ensures
        (m.spec_value() == 0u32) <==> (m == XPackageChunkAvailability::Ready),
        (m.spec_value() == 1u32) <==> (m == XPackageChunkAvailability::Pending),
        (m.spec_value() == 2u32) <==> (m == XPackageChunkAvailability::Installable),
        (m.spec_value() == 3u32) <==> (m == XPackageChunkAvailability::Unavailable),
{
}

impl XPackageChunkAvailability {
    /// The value that stands for it in the runtime's ABI.
    pub open spec fn spec_value(self) -> u32 {
        match self {
            XPackageChunkAvailability::Ready => 0,
            XPackageChunkAvailability::Pending => 1,
            XPackageChunkAvailability::Installable => 2,
            XPackageChunkAvailability::Unavailable => 3,
        }
    }

    /// Whether `v` stands for a variant.
    pub open spec fn spec_is_value(v: u32) -> bool {
        v == 0 || v == 1 || v == 2 || v == 3
    }

    /// Returns the value that stands for it in the runtime's ABI.
    pub fn value(&self) -> (v: u32)
        ensures
            v == self.spec_value(),
    {
        match self {
            XPackageChunkAvailability::Ready => 0,
            XPackageChunkAvailability::Pending => 1,
            XPackageChunkAvailability::Installable => 2,
            XPackageChunkAvailability::Unavailable => 3,
        }
    }

    /// Returns the variant that `v` stands for, if there is one.
    pub fn from_value(v: u32) -> (r: Option<XPackageChunkAvailability>)
        ensures
            r matches Some(e) ==> e.spec_value() == v,
            r is None <==> !XPackageChunkAvailability::spec_is_value(v),
    {
        if v == 0 {
            Some(XPackageChunkAvailability::Ready)
        } else if v == 1 {
            Some(XPackageChunkAvailability::Pending)
        } else if v == 2 {
            Some(XPackageChunkAvailability::Installable)
        } else if v == 3 {
            Some(XPackageChunkAvailability::Unavailable)
        } else {
            None
        }
    }
}
/// How chunks of a package are selected.
#[derive(Clone, Copy, Debug, PartialEq, Eq, Structural)]
pub enum XPackageChunkSelectorType {
    Language,
    Tag,
    Chunk,
    Feature,
}

/// The numeric values of `XPackageChunkSelectorType` that the ABI fixes:
/// `Language` is 0, `Tag` is 1, `Chunk` is 2, `Feature` is 3.
/// Each value belongs to one variant only.
pub proof fn law_x_package_chunk_selector_type_abi_values(m: XPackageChunkSelectorType)
    ensures
        (m.spec_value() == 0u32) <==> (m == XPackageChunkSelectorType::Language),
        (m.spec_value() == 1u32) <==> (m == XPackageChunkSelectorType::Tag),
        (m.spec_value() == 2u32) <==> (m == XPackageChunkSelectorType::Chunk),
        (m.spec_value() == 3u32) <==> (m == XPackageChunkSelectorType::Feature),
{
}

impl XPackageChunkSelectorType {
    /// The value that stands for it in the runtime's ABI.
    pub open spec fn spec_value(self) -> u32 {
        match self {
            XPackageChunkSelectorType::Language => 0,
            XPackageChunkSelectorType::Tag => 1,
            XPackageChunkSelectorType::Chunk => 2,
            XPackageChunkSelectorType::Feature => 3,
        }
    }

    /// Whether `v` stands for a variant.
    pub open spec fn spec_is_value(v: u32) -> bool {
        v == 0 || v == 1 || v == 2 || v == 3
    }

    /// Returns the value that stands for it in the runtime's ABI.
    pub fn value(&self) -> (v: u32)
        ensures
            v == self.spec_value(),
    {
        match self {
            XPackageChunkSelectorType::Language => 0,
            XPackageChunkSelectorType::Tag => 1,
            XPackageChunkSelectorType::Chunk => 2,
            XPackageChunkSelectorType::Feature => 3,
        }
    }

    /// Returns the variant that `v` stands for, if there is one.
    pub fn from_value(v: u32) -> (r: Option<XPackageChunkSelectorType>)
        ensures
            r matches Some(e) ==> e.spec_value() == v,
            r is None <==> !XPackageChunkSelectorType::spec_is_value(v),
    {
        if v == 0 {
            Some(XPackageChunkSelectorType::Language)
        } else if v == 1 {
            Some(XPackageChunkSelectorType::Tag)
        } else if v == 2 {
            Some(XPackageChunkSelectorType::Chunk)
        } else if v == 3 {
            Some(XPackageChunkSelectorType::Feature)
        } else {
            None
        }
    }
}
/// Which packages an enumeration covers.
#[derive(Clone, Copy, Debug, PartialEq, Eq, Structural)]
pub enum XPackageEnumerationScope {
    ThisOnly,
    ThisAndRelated,
    ThisPublisher,
}

/// The numeric values of `XPackageEnumerationScope` that the ABI fixes:
/// `ThisOnly` is 0, `ThisAndRelated` is 1, `ThisPublisher` is 2.
/// Each value belongs to one variant only.
pub proof fn law_x_package_enumeration_scope_abi_values(m: XPackageEnumerationScope)
    ensures
        (m.spec_value() == 0u32) <==> (m == XPackageEnumerationScope::ThisOnly),
        (m.spec_value() == 1u32) <==> (m == XPackageEnumerationScope::ThisAndRelated),
        (m.spec_value() == 2u32) <==> (m == XPackageEnumerationScope::ThisPublisher),
{
}

impl XPackageEnumerationScope {
    /// The value that stands for it in the runtime's ABI.
    pub open spec fn spec_value(self) -> u32 {
        match self {
            XPackageEnumerationScope::ThisOnly => 0,
            XPackageEnumerationScope::ThisAndRelated => 1,
            XPackageEnumerationScope::ThisPublisher => 2,
        }
    }

    /// Whether `v` stands for a variant.
    pub open spec fn spec_is_value(v: u32) -> bool {
        v == 0 || v == 1 || v == 2
    }

    /// Returns the value that stands for it in the runtime's ABI.
    pub fn value(&self) -> (v: u32)
        ensures
            v == self.spec_value(),
    {
        match self {
            XPackageEnumerationScope::ThisOnly => 0,
            XPackageEnumerationScope::ThisAndRelated => 1,
            XPackageEnumerationScope::ThisPublisher => 2,
        }
    }

    /// Returns the variant that `v` stands for, if there is one.
    pub fn from_value(v: u32) -> (r: Option<XPackageEnumerationScope>)
        ensures
            r matches Some(e) ==> e.spec_value() == v,
            r is None <==> !XPackageEnumerationScope::spec_is_value(v),
    {
        if v == 0 {
            Some(XPackageEnumerationScope::ThisOnly)
        } else if v == 1 {
            Some(XPackageEnumerationScope::ThisAndRelated)
        } else if v == 2 {
            Some(XPackageEnumerationScope::ThisPublisher)
        } else {
            None
        }
    }
}
/// The kind of a package.
#[derive(Clone, Copy, Debug, PartialEq, Eq, Structural)]
pub enum XPackageKind {
    Game,
    Content,
}

/// The numeric values of `XPackageKind` that the ABI fixes: `Game` is 0,
/// `Content` is 1.
/// Each value belongs to one variant only.
pub proof fn law_x_package_kind_abi_values(m: XPackageKind)
    ensures
        (m.spec_value() == 0u32) <==> (m == XPackageKind::Game),
        (m.spec_value() == 1u32) <==> (m == XPackageKind::Content),
{
}

impl XPackageKind {
    /// The value that stands for it in the runtime's ABI.
    pub open spec fn spec_value(self) -> u32 {
        match self {
            XPackageKind::Game => 0,
            XPackageKind::Content => 1,
        }
    }

    /// Whether `v` stands for a variant.
    pub open spec fn spec_is_value(v: u32) -> bool {
        v == 0 || v == 1
    }

    /// Returns the value that stands for it in the runtime's ABI.
    pub fn value(&self) -> (v: u32)
        ensures
            v == self.spec_value(),
    {
        match self {
            XPackageKind::Game => 0,
            XPackageKind::Content => 1,
        }
    }

    /// Returns the variant that `v` stands for, if there is one.
    pub fn from_value(v: u32) -> (r: Option<XPackageKind>)
        ensures
            r matches Some(e) ==> e.spec_value() == v,
            r is None <==> !XPackageKind::spec_is_value(v),
    {
        if v == 0 {
            Some(XPackageKind::Game)
        } else if v == 1 {
            Some(XPackageKind::Content)
        } else {
            None
        }
    }
}
/// Write statistics of a package.
#[derive(Clone, Copy, Debug, PartialEq, Eq, Structural)]
pub struct XPackageWriteStats {
    pub interval: u64,
    pub budget: u64,
    pub elapsed: u64,
    pub bytes_written: u64,
}

} // verus!
