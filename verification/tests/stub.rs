use xgameruntime::results::{E_FAIL, E_NOTIMPL, S_OK};
use xgameruntime::stub::{BlobPlacement, XStub, REMAINING_QUOTA, XGAME_SAVE_BLOB_SIZE};
use xgameruntime::xasync::XAsyncBlock;
use xgameruntime::xpackage::XPackageKind;

#[test]
fn sandbox_id_fills_what_fits() {
    let s = XStub;
    let mut big = vec![0xFFu8; 10];
    assert_eq!(s.x_system_get_xbox_live_sandbox_id(&mut big), S_OK);
    assert_eq!(big, b"RETAIL\0\xFF\xFF\xFF".to_vec());
    let mut small = vec![0xFFu8; 3];
    assert_eq!(s.x_system_get_xbox_live_sandbox_id(&mut small), S_OK);
    assert_eq!(small, b"RET".to_vec());
    let mut empty: Vec<u8> = Vec::new();
    assert_eq!(s.x_system_get_xbox_live_sandbox_id(&mut empty), S_OK);
    assert!(empty.is_empty());
}

#[test]
fn quota_and_containers() {
    let s = XStub;
    assert_eq!(s.x_game_save_remaining_quota(), 16 * 1024 * 1024);
    assert_eq!(REMAINING_QUOTA, 16777216);
    assert_eq!(s.x_game_save_delete_container(false), S_OK);
    assert_eq!(s.x_game_save_delete_container(true), E_FAIL);
    let info = s.x_game_save_get_container_info("slot1");
    assert_eq!(info.name, "slot1");
    assert_eq!(info.display_name, "slot1");
    assert_eq!(info.blob_count, 1);
    assert_eq!(info.total_size, 0);
    assert!(!info.needs_sync);
    assert_eq!(s.x_game_save_enumerate_blob_info_answer(0), E_FAIL);
    assert_eq!(s.x_game_save_enumerate_blob_info_answer(2), S_OK);
}

#[test]
fn blob_layout_places_names_then_data() {
    let s = XStub;
    let names = vec![4usize, 6];
    let lens = vec![10u64, 3];
    let v = s.blob_layout(&names, &lens).unwrap();
    assert_eq!(XGAME_SAVE_BLOB_SIZE, 24);
    assert_eq!(v[0], BlobPlacement { name_offset: 48, size: 10, data_offset: 52 });
    assert_eq!(v[1], BlobPlacement { name_offset: 62, size: 3, data_offset: 68 });
}

#[test]
fn blob_layout_truncates_sizes_and_refuses_overflow() {
    let s = XStub;
    let v = s.blob_layout(&vec![2usize], &vec![0x1_0000_0005u64]).unwrap();
    assert_eq!(v[0], BlobPlacement { name_offset: 24, size: 5, data_offset: 26 });
    assert!(s.blob_layout(&vec![usize::MAX], &vec![0u64]).is_none());
    assert_eq!(s.blob_layout(&Vec::new(), &Vec::new()), Some(Vec::new()));
}

#[test]
fn submit_update_result_is_block_status() {
    let s = XStub;
    let mut block = XAsyncBlock::zeroed();
    assert_eq!(s.x_game_save_submit_update_result(&block), E_FAIL);
    assert_eq!(block.x_async_begin(true, 1).0, S_OK);
    assert!(block.x_async_complete(S_OK, 0).is_some());
    assert_eq!(s.x_game_save_submit_update_result(&block), S_OK);
}

#[test]
fn packages() {
    let s = XStub;
    assert_eq!(s.x_package_get_current_process_package_identifier(), E_NOTIMPL);
    assert!(!s.x_package_is_packaged_process());
    let d = s.x_package_enumerate_packages2();
    assert_eq!(d.package_identifier, "Halo4");
    assert_eq!(d.kind, XPackageKind::Content);
    assert_eq!(d.publisher, "MS");
    assert_eq!(d.store_id, "9nn6vs9spw2r");
    assert_eq!(d.count, 1);
}
