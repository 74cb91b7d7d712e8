use xgameruntime::results::{E_ABORT, E_FAIL, E_NOTIMPL, E_POINTER, S_OK};
use xgameruntime::user::{
    parse_u64, user_from_xid_claim, SIGNED_IN_LOCAL_ID, encode_utf16, utf16_token_result, utf8_token_result, xuser_singleton, XUser, XUserAddOptions, XUserAgeGroup,
    XUserHandleInfo, XUserLocalId, XUserPrivilege, XUserPrivilegeDenyReason, XUserPrivilegeOptions, XUserState,
    TOKEN_RESULT_HEADER_SIZE,
};
use xgameruntime::xasync::{XAsyncBlock, XAsyncProviderContext, XAsyncResultStep, XAsyncStatus, XAsyncWorkOutcome};

#[test]
fn compare_orders_by_xuid() {
    let u = xuser_singleton();
    assert_eq!(u.x_user_compare(Some(1), Some(2)), 0xFFFF_FFFF);
    assert_eq!(u.x_user_compare(Some(2), Some(1)), 1);
    assert_eq!(u.x_user_compare(Some(5), Some(5)), 0);
    assert_eq!(u.x_user_compare(None, Some(5)), 1);
    assert_eq!(u.x_user_compare(Some(5), None), 1);
}

#[test]
fn fixed_answers() {
    let u = XUser::new();
    assert_eq!(u.x_user_get_max_users(), (S_OK, 4));
    assert_eq!(u.x_user_get_is_guest(), (S_OK, 0));
    assert_eq!(u.x_user_get_state(), (S_OK, XUserState::SignedIn));
    assert_eq!(u.x_user_get_age_group(), (S_OK, XUserAgeGroup::Adult));
    assert_eq!(
        u.x_user_check_privilege(XUserPrivilegeOptions::NoOptions, XUserPrivilege::Multiplayer),
        (S_OK, 1, XUserPrivilegeDenyReason::NoReason)
    );
    assert_eq!(u.x_user_find_user_by_id(3), E_FAIL);
    assert_eq!(u.x_user_find_user_by_local_id(XUserLocalId { value: 3 }), E_FAIL);
    assert_eq!(u.x_user_get_token_and_signature_async(), E_NOTIMPL);
    assert_eq!(u.x_user_register_for_change_event(), S_OK);
}

#[test]
fn handles_give_ids() {
    let u = XUser::new();
    let h = XUserHandleInfo { xuid: 2535405290, local_id: XUserLocalId { value: 987654321 } };
    assert_eq!(u.x_user_get_id(Some(h)), Ok(2535405290));
    assert_eq!(u.x_user_get_id(None), Err(E_FAIL));
    assert_eq!(u.x_user_get_local_id(Some(h)), Ok(XUserLocalId { value: 987654321 }));
    assert_eq!(u.x_user_get_local_id(None), Err(E_FAIL));
    assert_eq!(u.x_user_duplicate_handle(Some(h)), Ok(h));
    assert_eq!(u.x_user_duplicate_handle(None), Err(E_FAIL));
}

#[test]
fn adding_a_user_aborts_without_sign_in() {
    let mut u = XUser::new();
    let mut block = XAsyncBlock::zeroed();
    assert_eq!(u.x_user_add_async(true, &mut block), S_OK);
    let outcome = u.x_user_add_work();
    assert!(matches!(outcome, XAsyncWorkOutcome::Ready(Err(E_ABORT))));
    let mut ctx = XAsyncProviderContext::new();
    let (hr, _) = ctx.run_do_work(&mut block, outcome, 8);
    assert_eq!(hr, S_OK);
    assert_eq!(block.x_async_get_status(true), XAsyncStatus::Done(E_ABORT));
    let mut new_user = None;
    assert_eq!(u.x_user_add_result(&mut block, &ctx, &mut new_user), E_ABORT);
    assert!(new_user.is_none());
    assert!(u.handle.is_none());
}

#[test]
fn added_user_is_kept() {
    let mut u = XUser::new();
    let mut block = XAsyncBlock::zeroed();
    assert_eq!(u.x_user_add_async(true, &mut block), S_OK);
    let h = XUserHandleInfo { xuid: 1, local_id: XUserLocalId { value: 2 } };
    let mut ctx = XAsyncProviderContext::new();
    ctx.record(Ok(Some(h)));
    assert!(block.x_async_complete(ctx.result, 8).is_some());
    let mut new_user = None;
    assert_eq!(u.x_user_add_result(&mut block, &ctx, &mut new_user), S_OK);
    assert_eq!(new_user, Some(h));
    assert_eq!(u.handle, Some(h));
}

#[test]
fn gamertag_is_written() {
    let u = XUser::new();
    let mut buf = vec![0xAAu8; 20];
    let (hr, used) = u.x_user_get_gamertag(&mut buf, true);
    assert_eq!(hr, S_OK);
    assert_eq!(used, Some(13));
    assert_eq!(&buf[..14], b"ChristopherHX\0");
    assert_eq!(&buf[14..], &[0xAAu8; 6]);
    let (_, used) = u.x_user_get_gamertag(&mut buf, false);
    assert_eq!(used, None);
}

#[test]
fn utf16_encoding() {
    assert_eq!(encode_utf16("XBL3.0 x=1;"), "XBL3.0 x=1;".encode_utf16().collect::<Vec<u16>>());
    assert_eq!(encode_utf16("é€"), vec![0x00E9, 0x20AC]);
    assert_eq!(encode_utf16("😀"), vec![0xD83D, 0xDE00]);
    assert_eq!(encode_utf16(""), Vec::<u16>::new());
}

#[test]
fn utf16_token_layout() {
    let r = utf16_token_result("ab😀").unwrap();
    assert_eq!(r.size, TOKEN_RESULT_HEADER_SIZE + 2 * 5);
    assert_eq!(r.size, 42);
    assert_eq!(r.data.token_count, 5);
    assert_eq!(r.data.signature_count, 0);
    assert_eq!(r.data.token, Some(32));
    assert_eq!(r.data.signature, None);
    assert_eq!(r.token, vec![0x61, 0x62, 0xD83D, 0xDE00, 0]);
}

#[test]
fn utf8_token_layout() {
    let r = utf8_token_result("XBL3.0 é").unwrap();
    assert_eq!(r.size, 32 + 9 + 1);
    assert_eq!(r.data.token_size, 10);
    assert_eq!(r.data.signature_size, 0);
    assert_eq!(r.data.token, Some(32));
    let mut expected = "XBL3.0 é".as_bytes().to_vec();
    expected.push(0);
    assert_eq!(r.token, expected);
}

#[test]
fn token_result_size_needs_out_pointer() {
    let u = XUser::new();
    let mut block = XAsyncBlock::zeroed();
    assert_eq!(block.x_async_begin(true, 1).0, S_OK);
    assert!(block.x_async_complete(S_OK, 42).is_some());
    assert_eq!(u.x_user_get_token_and_signature_result_size(&block, false), Err(E_POINTER));
    assert_eq!(u.x_user_get_token_and_signature_result_size(&block, true), Ok(42));
    assert_eq!(u.x_user_get_token_and_signature_result(&mut block), XAsyncResultStep::ReadFromProvider);
}

#[test]
fn user_enum_values() {
    assert_eq!(XUserAddOptions::AddDefaultUserAllowingUI.value(), 4);
    assert_eq!(XUserAddOptions::from_value(3), None);
    assert_eq!(XUserPrivilege::from_value(254), Some(XUserPrivilege::Multiplayer));
    assert_eq!(XUserPrivilegeDenyReason::Unknown.value(), 0xFFFF_FFFF);
    assert_eq!(XUserState::from_value(2), Some(XUserState::SignedOut));
}

#[test]
fn xid_claims_are_decimal() {
    assert_eq!(parse_u64("2535405290"), Some(2535405290));
    assert_eq!(parse_u64("+7"), Some(7));
    assert_eq!(parse_u64("18446744073709551615"), Some(u64::MAX));
    assert_eq!(parse_u64("18446744073709551616"), None);
    assert_eq!(parse_u64("-1"), None);
    assert_eq!(parse_u64(""), None);
    assert_eq!(parse_u64("+"), None);
    assert_eq!(parse_u64("12a"), None);
    let u = user_from_xid_claim("2535405290").unwrap();
    assert_eq!(u.xuid, 2535405290);
    assert_eq!(u.local_id.value, SIGNED_IN_LOCAL_ID);
    assert_eq!(SIGNED_IN_LOCAL_ID, 987654321);
    assert!(user_from_xid_claim("x").is_none());
}
