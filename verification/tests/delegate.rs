use xgameruntime::delegate::{
    delegated_dll_name, load_delegated_api, remote_login_message, remote_login_title, LibraryLoad,
    delegate_mode, dll_can_unload_now, dll_get_class_object, initialize_api_impl_mode, x_error_report,
    DelegateLoadOutcome, DelegatedApiState, InitializeStep, UninitializeStep,
};
use xgameruntime::results::{CLASS_E_CLASSNOTAVAILABLE, E_FAIL, E_NOTIMPL, S_OK};

#[test]
fn first_initialize_loads_last_uninitialize_unloads() {
    let mut s = DelegatedApiState::new();
    assert_eq!(s.initialize(2), InitializeStep::LoadDelegate { mode: 10 });
    assert_eq!(s.finish_initialize(DelegateLoadOutcome::Initialized), (S_OK, false));
    assert!(s.forwards_queries());
    assert_eq!(s.initialize(2), InitializeStep::Done(S_OK));
    assert_eq!(s.ref_count, 2);
    assert_eq!(s.uninitialize(), UninitializeStep::Done(S_OK));
    assert_eq!(s.uninitialize(), UninitializeStep::Unload);
    assert!(!s.forwards_queries());
    assert_eq!(s.uninitialize(), UninitializeStep::Done(E_NOTIMPL));
}

#[test]
fn failed_load_leaves_nothing_loaded() {
    let mut s = DelegatedApiState::new();
    assert_eq!(s.initialize(0), InitializeStep::LoadDelegate { mode: 8 });
    assert_eq!(s.finish_initialize(DelegateLoadOutcome::LoadFailed(E_FAIL)), (E_FAIL, false));
    assert_eq!(s.ref_count, 0);
    assert_eq!(s.initialize(0), InitializeStep::LoadDelegate { mode: 8 });
    assert_eq!(s.finish_initialize(DelegateLoadOutcome::InitializeFailed(E_NOTIMPL)), (E_NOTIMPL, true));
    assert!(!s.loaded);
}

#[test]
fn exported_answers() {
    assert_eq!(delegate_mode(0), 8);
    assert_eq!(delegate_mode(8), 8);
    assert_eq!(delegate_mode(3), 11);
    assert_eq!(initialize_api_impl_mode(), 0);
    assert_eq!(dll_can_unload_now(), S_OK);
    assert_eq!(dll_get_class_object(), CLASS_E_CLASSNOTAVAILABLE);
    assert_eq!(x_error_report(), E_NOTIMPL);
}

#[test]
fn delegated_queries_and_loading() {
    let mut s = DelegatedApiState::new();
    assert_eq!(s.delegated_query_api_impl(), Some(E_NOTIMPL));
    s.initialize(0);
    s.finish_initialize(DelegateLoadOutcome::Initialized);
    assert_eq!(s.delegated_query_api_impl(), None);
    assert_eq!(delegated_dll_name(), "xgameruntime.gdk.dll");
    assert_eq!(load_delegated_api(false, true, true, true), LibraryLoad::Failed { free_library: false });
    assert_eq!(load_delegated_api(true, true, false, true), LibraryLoad::Failed { free_library: true });
    assert_eq!(load_delegated_api(true, true, true, true), LibraryLoad::Loaded);
    assert_eq!(remote_login_message("https://microsoft.com/link", "ABCD1234"), "https://microsoft.com/link ABCD1234");
    assert_eq!(remote_login_title(), "Xbox Live Remote Login");
}
