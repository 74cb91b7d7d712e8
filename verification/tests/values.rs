use xgameruntime::authenticator::Constants;
use xgameruntime::delegate::InitializeOptions;
use xgameruntime::stub::XStub;
use xgameruntime::user::{AppLocalDeviceId, XUserDeviceAssociationChange, XUserGetTokenAndSignatureUtf16HttpHeader, XUserLocalId};
use xgameruntime::xerror::XErrorOptions;
use xgameruntime::xgameactivation::XGameActivationType;
use xgameruntime::xgamestreaming::{
    XGameStreamingClientProperty, XGameStreamingConnectionState, XGameStreamingDisplayDetails,
    XGameStreamingGamepadPhysicality, XGameStreamingTouchControlsStateOperationKind,
    XGameStreamingTouchControlsStateValueKind, XGameStreamingVideoFlags, RECT,
};
use xgameruntime::xnetworking::{
    XNetworkingConfigurationSetting, XNetworkingStatisticsType, XNetworkingTcpQueuedReceivedBufferUsageStatistics,
    XNetworkingThumbprintType,
};
use xgameruntime::xpackage::{XPackageChunkAvailability, XPackageChunkSelectorType, XPackageEnumerationScope, XPackageKind, XPackageWriteStats};
use xgameruntime::xstore::{XStoreCanLicenseStatus, XStoreDurationUnit, XStoreProductKind, XStoreSubscriptionInfo};
use xgameruntime::xsystem::{XSystemHandleCallbackReason, XSystemHandleType};

#[test]
fn enum_values_match_the_abi() {
    assert_eq!(XErrorOptions::FailFastOnError.value(), 4);
    assert_eq!(XErrorOptions::from_value(3), None);
    assert_eq!(XGameActivationType::from_value(2), Some(XGameActivationType::PendingGameInvite));
    assert_eq!(XGameStreamingClientProperty::IPAddress.value(), 5);
    assert_eq!(XGameStreamingClientProperty::from_value(3), None);
    assert_eq!(XGameStreamingConnectionState::Connected.value(), 1);
    assert_eq!(XGameStreamingGamepadPhysicality::AllVirtual.value(), 0x003FF3FF00000000);
    assert_eq!(
        XGameStreamingGamepadPhysicality::from_value(0x0000000000001000),
        Some(XGameStreamingGamepadPhysicality::APhysical)
    );
    assert_eq!(XGameStreamingTouchControlsStateOperationKind::Replace.value(), 0);
    assert_eq!(XGameStreamingTouchControlsStateValueKind::Text.value(), 3);
    assert_eq!(XGameStreamingVideoFlags::SupportsPresentScaling.value(), 2);
    assert_eq!(XNetworkingConfigurationSetting::MaxToolsTcpQueuedReceiveBufferSize.value(), 2);
    assert_eq!(XNetworkingStatisticsType::from_value(0), Some(XNetworkingStatisticsType::TitleTcpQueuedReceivedBufferUsage));
    assert_eq!(XNetworkingThumbprintType::Root.value(), 2);
    assert_eq!(XPackageChunkAvailability::Unavailable.value(), 3);
    assert_eq!(XPackageChunkSelectorType::Feature.value(), 3);
    assert_eq!(XPackageEnumerationScope::ThisPublisher.value(), 2);
    assert_eq!(XPackageKind::from_value(1), Some(XPackageKind::Content));
    assert_eq!(XStoreCanLicenseStatus::Licensable.value(), 1);
    assert_eq!(XStoreDurationUnit::Year.value(), 5);
    assert_eq!(XStoreProductKind::UnmanagedConsumable.value(), 0x10);
    assert_eq!(XStoreProductKind::from_value(3), None);
    assert_eq!(XSystemHandleType::GameUiTextEntry.value(), 0x0f);
    assert_eq!(XSystemHandleCallbackReason::from_value(1), Some(XSystemHandleCallbackReason::Destroyed));
}

#[test]
fn records_hold_their_fields() {
    let change = XUserDeviceAssociationChange {
        device_id: AppLocalDeviceId { value: [1; 16] },
        old_user: XUserLocalId { value: 1 },
        new_user: XUserLocalId { value: 2 },
    };
    assert_eq!(change.new_user.value, 2);
    let h = XUserGetTokenAndSignatureUtf16HttpHeader { name: vec![0x61], value: vec![0x62] };
    assert_eq!(h.name, vec![0x61]);
    let d = XGameStreamingDisplayDetails {
        preferred_width: 1920,
        preferred_height: 1080,
        safe_area: RECT,
        max_pixels: 0,
        max_width: 1920,
        max_height: 1080,
        flags: XGameStreamingVideoFlags::NoFlags,
    };
    assert_eq!(d.flags.value(), 0);
    let s = XNetworkingTcpQueuedReceivedBufferUsageStatistics {
        num_bytes_currently_queued: 1,
        peak_num_bytes_ever_queued: 2,
        total_num_bytes_queued: 3,
        num_bytes_dropped_for_exceeding_configured_max: 4,
        num_bytes_dropped_due_to_any_failure: 5,
    };
    assert_eq!(s.total_num_bytes_queued, 3);
    let w = XPackageWriteStats { interval: 1, budget: 2, elapsed: 3, bytes_written: 4 };
    assert_eq!(w.bytes_written, 4);
    let sub = XStoreSubscriptionInfo {
        has_trial_period: true,
        trial_period_unit: XStoreDurationUnit::Day,
        trial_period: 7,
        billing_period_unit: XStoreDurationUnit::Month,
        billing_period: 1,
    };
    assert_eq!(sub.trial_period_unit.value(), 2);
    let _ = InitializeOptions;
    let _ = XStub;
}

#[test]
fn authentication_endpoints() {
    assert_eq!(Constants::XBOX_SISU_AUTHORIZE_URL, "https://sisu.xboxlive.com/authorize");
    assert_eq!(Constants::XBOX_DEVICE_AUTH_URL, "https://device.auth.xboxlive.com/device/authenticate");
    assert_eq!(Constants::XBOX_XSTS_AUTH_URL, "https://xsts.auth.xboxlive.com/xsts/authorize");
    assert_eq!(Constants::RELYING_PARTY_AUTH_XBOXLIVE, "http://auth.xboxlive.com");
}
