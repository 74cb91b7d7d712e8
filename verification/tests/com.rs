use xgameruntime::com::{
    declared_interfaces, declares_interface, query_answer, query_api_impl, xfeature_singleton,
    xnetworking_singleton, xpersistent_local_storage_singleton, xstore_singleton, IXFeature, RuntimeObject,
    XStoreGameLicense, CLSID_XASYNC, CLSID_XFEATURE, CLSID_XNETWORKING, CLSID_XPERSISTENT_LOCAL_STORAGE,
    CLSID_XSTORE, CLSID_XUSER, IID_IXSTORE, IID_IXSTORE_ALIAS2, IID_IXUSER6,
};
use xgameruntime::delegate::{DelegateLoadOutcome, DelegatedApiState, InitializeStep, UninitializeStep};
use xgameruntime::results::{E_FAIL, E_NOINTERFACE, E_POINTER, S_OK};
use xgameruntime::xasync::{
    get_result, run_begin, schedule_on_begin, work_callback_finish, XAsyncBlock, XAsyncProviderContext, XAsyncResultStep,
    XAsyncStatus, XAsyncWorkOutcome,
};
use xgameruntime::xnetworking::{XNetworkingConnectivityCostHint, XNetworkingConnectivityLevelHint, SECURITY_PROTOCOL_FLAGS};

#[test]
fn com_test() {
    let obj = query_api_impl(Some(CLSID_XSTORE), true, true);
    assert_eq!(obj, Ok(RuntimeObject::Store));
    assert_eq!(query_answer(true, true, declares_interface(RuntimeObject::Store, IID_IXSTORE)), S_OK);
    let store = xstore_singleton();
    let (hr, ctx) = store.x_store_create_context();
    assert_eq!(hr, S_OK);
    assert_eq!(ctx, 1);
    let mut block = XAsyncBlock::zeroed();
    let (hr, posted, license_ctx) = store.x_store_query_game_license_async(false, &mut block, 104);
    assert_eq!(hr, S_OK);
    assert!(!posted);
    assert!(license_ctx.is_none());
}

#[test]
fn classes_pick_their_objects() {
    assert_eq!(query_api_impl(Some(CLSID_XFEATURE), true, true), Ok(RuntimeObject::Feature));
    assert_eq!(query_api_impl(Some(CLSID_XNETWORKING), true, true), Ok(RuntimeObject::Networking));
    assert_eq!(
        query_api_impl(Some(CLSID_XPERSISTENT_LOCAL_STORAGE), true, true),
        Ok(RuntimeObject::PersistentLocalStorage)
    );
    assert_eq!(query_api_impl(Some(CLSID_XUSER), true, true), Ok(RuntimeObject::User));
    assert_eq!(query_api_impl(Some(CLSID_XASYNC), true, true), Ok(RuntimeObject::XAsync));
    assert_eq!(query_api_impl(Some(0x1234), true, true), Ok(RuntimeObject::Delegated));
}

#[test]
fn missing_pointers_fail_with_e_pointer() {
    assert_eq!(query_api_impl(None, true, true), Err(E_POINTER));
    assert_eq!(query_api_impl(Some(CLSID_XSTORE), false, true), Err(E_POINTER));
    assert_eq!(query_api_impl(Some(CLSID_XSTORE), true, false), Err(E_POINTER));
    assert_eq!(query_answer(false, true, true), E_POINTER);
    assert_eq!(query_answer(true, true, false), E_NOINTERFACE);
}

#[test]
fn declared_interfaces_of_objects() {
    assert_eq!(declared_interfaces(RuntimeObject::Store).len(), 4);
    assert!(declares_interface(RuntimeObject::Store, IID_IXSTORE_ALIAS2));
    assert!(!declares_interface(RuntimeObject::Networking, IID_IXSTORE));
    assert!(declares_interface(RuntimeObject::User, IID_IXUSER6));
    assert_eq!(declared_interfaces(RuntimeObject::Delegated).len(), 0);
}

#[test]
fn every_feature_is_available() {
    let f = xfeature_singleton();
    assert!(f.xgame_runtime_is_feature_available(0));
    assert!(f.xgame_runtime_is_feature_available(123));
}

#[test]
fn persistent_storage_path() {
    let s = xpersistent_local_storage_singleton("C:\\Temp".to_string());
    assert_eq!(s.x_persistent_local_storage_get_path_size(), 8);
    let (bytes, used) = s.x_persistent_local_storage_get_path(100);
    assert_eq!(bytes, b"C:\\Temp\0".to_vec());
    assert_eq!(used, 8);
    let (bytes, used) = s.x_persistent_local_storage_get_path(3);
    assert_eq!(bytes, b"C:\0".to_vec());
    assert_eq!(used, 3);
    let (bytes, used) = s.x_persistent_local_storage_get_path(8);
    assert_eq!(bytes, b"C:\\Temp\0".to_vec());
    assert_eq!(used, 8);
    let (bytes, used) = s.x_persistent_local_storage_get_path(0);
    assert!(bytes.is_empty());
    assert_eq!(used, 1);
    let info = s.x_persistent_local_storage_get_space_info();
    assert_eq!(info.total_bytes, 2147483648);
    assert_eq!(info.used_bytes, 536870912);
}

#[test]
fn store_license_round_trip() {
    let store = xstore_singleton();
    let mut block = XAsyncBlock::zeroed();
    let (hr, posted, license_ctx) = store.x_store_query_game_license_async(true, &mut block, 104);
    assert_eq!(hr, S_OK);
    assert!(posted);
    let license_ctx = license_ctx.unwrap();
    assert_eq!(license_ctx.result, S_OK);
    assert_eq!(block.x_async_get_status(true), XAsyncStatus::Done(S_OK));
    let mut copy = block;
    let (hr, license) = store.x_store_query_game_license_result(true, false, &mut copy, &license_ctx);
    assert_eq!(hr, E_POINTER);
    assert!(license.is_none());
    let (hr, license) = store.x_store_query_game_license_result(true, true, &mut block, &license_ctx);
    assert_eq!(hr, S_OK);
    let license = license.unwrap();
    assert!(license.is_active);
    assert!(!license.is_trial);
    assert!(!license.is_trial_owned_by_this_user);
    assert!(!license.is_disc_license);
    assert_eq!(license.trial_time_remaining_in_seconds, 0);
    assert_eq!(license.sku_store_id, [0i8; 18]);
    assert_eq!(license.expiration_date, 0);
    let (hr, license) = store.x_store_query_game_license_result(true, true, &mut block, &license_ctx);
    assert_eq!(hr, E_FAIL);
    assert!(license.is_none());
    let failed = XAsyncProviderContext::<XStoreGameLicense>::new();
    let mut other = XAsyncBlock::zeroed();
    assert_eq!(other.x_async_begin(true, 1).0, S_OK);
    assert!(other.x_async_complete(E_FAIL, 104).is_some());
    let (hr, license) = store.x_store_query_game_license_result(true, true, &mut other, &failed);
    assert_eq!(hr, E_FAIL);
    assert!(license.is_none());
}

#[test]
fn networking_answers() {
    let n = xnetworking_singleton();
    let hint = n.x_networking_get_connectivity_hint(true).unwrap();
    assert_eq!(hint.connectivity_level, XNetworkingConnectivityLevelHint::InternetAccess);
    assert_eq!(hint.connectivity_cost, XNetworkingConnectivityCostHint::Unrestricted);
    assert_eq!(hint.iana_interface_type, 6);
    assert!(hint.network_initialized);
    assert_eq!(n.x_networking_get_connectivity_hint(false), Err(E_POINTER));
    assert_eq!(n.x_networking_verify_server_certificate(), S_OK);
    let info = n.security_information();
    assert_eq!(info.enabled_http_security_protocol_flags, 0x2A80);
    assert_eq!(SECURITY_PROTOCOL_FLAGS, 0x80 | 0x200 | 0x800 | 0x2000);
    assert_eq!(info.thumbprint_count, 0);
    assert_eq!(info.thumbprints, None);
}

#[test]
fn networking_security_query_result() {
    let n = xnetworking_singleton();
    let mut block = XAsyncBlock::zeroed();
    let (hr, posted, info_ctx) = n.x_networking_query_security_information_for_url_async(true, &mut block, 24);
    assert_eq!(hr, S_OK);
    assert!(posted);
    let info_ctx = info_ctx.unwrap();
    assert_eq!(n.x_networking_query_security_information_for_url_async_result_size(&block), Ok(24));
    let mut copy = block;
    assert_eq!(
        n.x_networking_query_security_information_for_url_async_result(&mut copy, &info_ctx, 8, 24),
        (E_FAIL, None, None)
    );
    let (hr, used, info) = n.x_networking_query_security_information_for_url_async_result(&mut block, &info_ctx, 24, 24);
    assert_eq!(hr, S_OK);
    assert_eq!(used, Some(24));
    let info = info.unwrap();
    assert_eq!(info.enabled_http_security_protocol_flags, 0x2A80);
    assert_eq!(info.thumbprint_count, 0);
    assert_eq!(info.thumbprints, None);
    assert_eq!(info, n.security_information());
    assert_eq!(
        n.x_networking_query_security_information_for_url_async_result(&mut block, &info_ctx, 24, 24),
        (E_FAIL, Some(0), None)
    );
    let mut missing = XAsyncBlock::zeroed();
    let (hr, posted, info_ctx) = n.x_networking_query_security_information_for_url_async(false, &mut missing, 24);
    assert_eq!((hr, posted), (S_OK, false));
    assert!(info_ctx.is_none());
}

#[test]
fn connectivity_callback_gets_the_hint() {
    let n = xnetworking_singleton();
    let (hr, hint) = n.x_networking_register_connectivity_hint_changed(true);
    assert_eq!(hr, S_OK);
    assert!(hint.is_some());
    let (hr, hint) = n.x_networking_register_connectivity_hint_changed(false);
    assert_eq!(hr, S_OK);
    assert!(hint.is_none());
}

#[derive(Clone, Copy, Debug, PartialEq)]
struct Payload {
    v: i32,
    v2: i64,
    v3: u128,
}

#[test]
fn query_game_license_async_blocks_via_xasync() {
    let mut delegate = DelegatedApiState::new();
    assert_eq!(delegate.initialize(10), InitializeStep::LoadDelegate { mode: 10 });
    assert_eq!(delegate.finish_initialize(DelegateLoadOutcome::Initialized), (S_OK, false));

    assert_eq!(query_api_impl(Some(CLSID_XSTORE), true, true), Ok(RuntimeObject::Store));
    assert!(declares_interface(RuntimeObject::Store, IID_IXSTORE));
    let store = xstore_singleton();
    let (hr, _ctx) = store.x_store_create_context();
    assert_eq!(hr, S_OK);

    let mut block = XAsyncBlock::zeroed();
    let (hr, _, license_ctx) = store.x_store_query_game_license_async(true, &mut block, 104);
    assert_eq!(hr, S_OK);
    assert_eq!(block.x_async_get_status(true), XAsyncStatus::Done(S_OK));
    let (result_hr, license) = store.x_store_query_game_license_result(true, true, &mut block, &license_ctx.unwrap());
    assert_eq!(result_hr, S_OK);
    let license = license.unwrap();
    assert!(license.is_active);
    assert!(!license.is_trial_owned_by_this_user);
    assert!(!license.is_trial);
    assert!(!license.is_disc_license);
    assert_eq!(license.trial_time_remaining_in_seconds, 0);

    let mut block = XAsyncBlock::zeroed();
    assert_eq!(run_begin(true, &mut block), S_OK);
    assert_eq!(schedule_on_begin(&block).0, S_OK);
    let mut ctx = XAsyncProviderContext::new();
    let produced = Payload { v: 0, v2: 323, v3: 0 };
    let (provider_hr, posted) = ctx.run_do_work(&mut block, XAsyncWorkOutcome::Ready(Ok(produced)), 32);
    assert_eq!(provider_hr, S_OK);
    assert!(posted);
    assert!(!work_callback_finish(&mut block, provider_hr));
    assert_eq!(block.x_async_get_status(true), XAsyncStatus::Done(S_OK));
    let mut payload = Payload { v: 0, v2: 0, v3: 0 };
    assert_eq!(get_result(&mut block, &ctx, &mut payload), Ok(()));
    assert_eq!(payload.v, 0);
    assert_eq!(payload.v2, 323);
    assert_eq!(payload.v3, 0);

    assert_eq!(delegate.uninitialize(), UninitializeStep::Unload);
}
