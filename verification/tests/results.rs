use xgameruntime::results::{failed, hresult_bits, hresult_from_bits, E_FAIL, E_PENDING, S_OK};

#[test]
fn hresult_bits_round_trip() {
    assert_eq!(hresult_bits(E_FAIL), 0x80004005);
    assert_eq!(hresult_from_bits(0x8000000A), E_PENDING);
    assert_eq!(hresult_from_bits(hresult_bits(-7)), -7);
    assert!(failed(E_FAIL));
    assert!(!failed(S_OK));
    assert!(!failed(1));
}
