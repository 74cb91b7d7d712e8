//! Values of the store API.
use vstd::prelude::*;

verus! {

/// A price; it carries nothing here.
#[derive(Clone, Copy, Debug)]
pub struct XStorePrice {}

/// Whether a product can be licensed.
#[derive(Clone, Copy, Debug, PartialEq, Eq, Structural)]
pub enum XStoreCanLicenseStatus {
    NotLicensableToUser,
    Licensable,
    LicenseActionNotApplicableToProduct,
}

/// The numeric values of `XStoreCanLicenseStatus` that the ABI fixes:
/// `NotLicensableToUser` is 0, `Licensable` is 1,
/// `LicenseActionNotApplicableToProduct` is 2.
/// Each value belongs to one variant only.
pub proof fn law_x_store_can_license_status_abi_values(m: XStoreCanLicenseStatus)
    ensures
        (m.spec_value() == 0u32) <==> (m == XStoreCanLicenseStatus::NotLicensableToUser),
        (m.spec_value() == 1u32) <==> (m == XStoreCanLicenseStatus::Licensable),
        (m.spec_value() == 2u32) <==> (m == XStoreCanLicenseStatus::LicenseActionNotApplicableToProduct),
{
}

impl XStoreCanLicenseStatus {
    /// The value that stands for it in the runtime's ABI.
    pub open spec fn spec_value(self) -> u32 {
        match self {
            XStoreCanLicenseStatus::NotLicensableToUser => 0,
            XStoreCanLicenseStatus::Licensable => 1,
            XStoreCanLicenseStatus::LicenseActionNotApplicableToProduct => 2,
        }
    }

    /// Whether `v` stands for a variant.
    pub open spec fn spec_is_value(v: u32) -> bool {
        v == 0 || v == 1 || v == 2
    }

    /// Returns the value that stands for it in the runtime's ABI.
    pub fn value(&self) -> (v: u32)
        ensures
            v == self.spec_value(),
    {
        match self {
            XStoreCanLicenseStatus::NotLicensableToUser => 0,
            XStoreCanLicenseStatus::Licensable => 1,
            XStoreCanLicenseStatus::LicenseActionNotApplicableToProduct => 2,
        }
    }

    /// Returns the variant that `v` stands for, if there is one.
    pub fn from_value(v: u32) -> (r: Option<XStoreCanLicenseStatus>)
        ensures
            r matches Some(e) ==> e.spec_value() == v,
            r is None <==> !XStoreCanLicenseStatus::spec_is_value(v),
    {
        if v == 0 {
            Some(XStoreCanLicenseStatus::NotLicensableToUser)
        } else if v == 1 {
            Some(XStoreCanLicenseStatus::Licensable)
        } else if v == 2 {
            Some(XStoreCanLicenseStatus::LicenseActionNotApplicableToProduct)
        } else {
            None
        }
    }
}
/// A unit of a subscription period.
#[derive(Clone, Copy, Debug, PartialEq, Eq, Structural)]
pub enum XStoreDurationUnit {
    Minute,
    Hour,
    Day,
    Week,
    Month,
    Year,
}

/// The numeric values of `XStoreDurationUnit` that the ABI fixes: `Minute` is
/// 0, `Hour` is 1, `Day` is 2, `Week` is 3, `Month` is 4, `Year` is 5.
/// Each value belongs to one variant only.
pub proof fn law_x_store_duration_unit_abi_values(m: XStoreDurationUnit)
    ensures
        (m.spec_value() == 0u32) <==> (m == XStoreDurationUnit::Minute),
        (m.spec_value() == 1u32) <==> (m == XStoreDurationUnit::Hour),
        (m.spec_value() == 2u32) <==> (m == XStoreDurationUnit::Day),
        (m.spec_value() == 3u32) <==> (m == XStoreDurationUnit::Week),
        (m.spec_value() == 4u32) <==> (m == XStoreDurationUnit::Month),
        (m.spec_value() == 5u32) <==> (m == XStoreDurationUnit::Year),
{
}

impl XStoreDurationUnit {
    /// The value that stands for it in the runtime's ABI.
    pub open spec fn spec_value(self) -> u32 {
        match self {
            XStoreDurationUnit::Minute => 0,
            XStoreDurationUnit::Hour => 1,
            XStoreDurationUnit::Day => 2,
            XStoreDurationUnit::Week => 3,
            XStoreDurationUnit::Month => 4,
            XStoreDurationUnit::Year => 5,
        }
    }

    /// Whether `v` stands for a variant.
    pub open spec fn spec_is_value(v: u32) -> bool {
        v == 0 || v == 1 || v == 2 || v == 3 || v == 4 || v == 5
    }

    /// Returns the value that stands for it in the runtime's ABI.
    pub fn value(&self) -> (v: u32)
        ensures
            v == self.spec_value(),
    {
        match self {
            XStoreDurationUnit::Minute => 0,
            XStoreDurationUnit::Hour => 1,
            XStoreDurationUnit::Day => 2,
            XStoreDurationUnit::Week => 3,
            XStoreDurationUnit::Month => 4,
            XStoreDurationUnit::Year => 5,
        }
    }

    /// Returns the variant that `v` stands for, if there is one.
    pub fn from_value(v: u32) -> (r: Option<XStoreDurationUnit>)
        ensures
            r matches Some(e) ==> e.spec_value() == v,
            r is None <==> !XStoreDurationUnit::spec_is_value(v),
    {
        if v == 0 {
            Some(XStoreDurationUnit::Minute)
        } else if v == 1 {
            Some(XStoreDurationUnit::Hour)
        } else if v == 2 {
            Some(XStoreDurationUnit::Day)
        } else if v == 3 {
            Some(XStoreDurationUnit::Week)
        } else if v == 4 {
            Some(XStoreDurationUnit::Month)
        } else if v == 5 {
            Some(XStoreDurationUnit::Year)
        } else {
            None
        }
    }
}
/// The kind of a store product.
#[derive(Clone, Copy, Debug, PartialEq, Eq, Structural)]
pub enum XStoreProductKind {
    /// No kind (the ABI's `None`).
    NoKind,
    Consumable,
    Durable,
    Game,
    Pass,
    UnmanagedConsumable,
}

/// The numeric values of `XStoreProductKind` that the ABI fixes: `NoKind` is
/// 0x00, `Consumable` is 0x01, `Durable` is 0x02, `Game` is 0x04, `Pass` is
/// 0x08, `UnmanagedConsumable` is 0x10.
/// Each value belongs to one variant only.
pub proof fn law_x_store_product_kind_abi_values(m: XStoreProductKind)
    ensures
        (m.spec_value() == 0x00u32) <==> (m == XStoreProductKind::NoKind),
        (m.spec_value() == 0x01u32) <==> (m == XStoreProductKind::Consumable),
        (m.spec_value() == 0x02u32) <==> (m == XStoreProductKind::Durable),
        (m.spec_value() == 0x04u32) <==> (m == XStoreProductKind::Game),
        (m.spec_value() == 0x08u32) <==> (m == XStoreProductKind::Pass),
        (m.spec_value() == 0x10u32) <==> (m == XStoreProductKind::UnmanagedConsumable),
{
}

impl XStoreProductKind {
    /// The value that stands for it in the runtime's ABI.
    pub open spec fn spec_value(self) -> u32 {
        match self {
            XStoreProductKind::NoKind => 0x00,
            XStoreProductKind::Consumable => 0x01,
            XStoreProductKind::Durable => 0x02,
            XStoreProductKind::Game => 0x04,
            XStoreProductKind::Pass => 0x08,
            XStoreProductKind::UnmanagedConsumable => 0x10,
        }
    }

    /// Whether `v` stands for a variant.
    pub open spec fn spec_is_value(v: u32) -> bool {
        v == 0x00 || v == 0x01 || v == 0x02 || v == 0x04 || v == 0x08 || v == 0x10
    }

    /// Returns the value that stands for it in the runtime's ABI.
    pub fn value(&self) -> (v: u32)
        ensures
            v == self.spec_value(),
    {
        match self {
            XStoreProductKind::NoKind => 0x00,
            XStoreProductKind::Consumable => 0x01,
            XStoreProductKind::Durable => 0x02,
            XStoreProductKind::Game => 0x04,
            XStoreProductKind::Pass => 0x08,
            XStoreProductKind::UnmanagedConsumable => 0x10,
        }
    }

    /// Returns the variant that `v` stands for, if there is one.
    pub fn from_value(v: u32) -> (r: Option<XStoreProductKind>)
        ensures
            r matches Some(e) ==> e.spec_value() == v,
            r is None <==> !XStoreProductKind::spec_is_value(v),
    {
        if v == 0x00 {
            Some(XStoreProductKind::NoKind)
        } else if v == 0x01 {
            Some(XStoreProductKind::Consumable)
        } else if v == 0x02 {
            Some(XStoreProductKind::Durable)
        } else if v == 0x04 {
            Some(XStoreProductKind::Game)
        } else if v == 0x08 {
            Some(XStoreProductKind::Pass)
        } else if v == 0x10 {
            Some(XStoreProductKind::UnmanagedConsumable)
        } else {
            None
        }
    }
}
/// The balance of a consumable after a report.
#[derive(Clone, Copy, Debug, PartialEq, Eq, Structural)]
pub struct XStoreConsumableResult {
    pub quantity: u32,
}

/// Whether a rating or review was updated.
#[derive(Clone, Copy, Debug, PartialEq, Eq, Structural)]
pub struct XStoreRateAndReviewResult {
    pub was_updated: bool,
}

/// The trial and billing periods of a subscription.
#[derive(Clone, Copy, Debug, PartialEq, Eq, Structural)]
pub struct XStoreSubscriptionInfo {
    pub has_trial_period: bool,
    pub trial_period_unit: XStoreDurationUnit,
    pub trial_period: u32,
    pub billing_period_unit: XStoreDurationUnit,
    pub billing_period: u32,
}

/// A package update; it carries nothing here.
#[derive(Clone, Copy, Debug)]
pub struct XStorePackageUpdate;

/// An add-on license; it carries nothing here.
#[derive(Clone, Copy, Debug)]
pub struct XStoreAddonLicense;

/// Whether a license can be acquired; it carries nothing here.
#[derive(Clone, Copy, Debug)]
pub struct XStoreCanAcquireLicenseResult;

} // verus!
