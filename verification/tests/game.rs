use xgameruntime::game::{from_str_radix_16, low_u32, x_game_get_xbox_title_id, Game, LicenseTokenResponse};
use xgameruntime::results::E_FAIL;

fn game(title_id: &str) -> Game {
    Game { store_id: "9NBLGGH2JHXJ".to_string(), title_id: title_id.to_string(), msa_app_id: None }
}

#[test]
fn title_id_is_hex() {
    assert_eq!(game("3575FB77").get_title_id(), 0x3575FB77);
    assert_eq!(game("896928775").get_title_id(), 0x896928775);
    assert_eq!(game("ff").get_title_id(), 255);
    assert_eq!(game("-1A").get_title_id(), -26);
    assert_eq!(game("+10").get_title_id(), 16);
}

#[test]
fn hex_parse_errors() {
    assert_eq!(from_str_radix_16(""), None);
    assert_eq!(from_str_radix_16("-"), None);
    assert_eq!(from_str_radix_16("12G"), None);
    assert_eq!(from_str_radix_16("8000000000000000"), None);
    assert_eq!(from_str_radix_16("7FFFFFFFFFFFFFFF"), Some(i64::MAX));
    assert_eq!(from_str_radix_16("-8000000000000000"), Some(i64::MIN));
}

#[test]
fn xbox_title_id_is_low_32_bits() {
    let g = game("1FFFFFFFF");
    assert_eq!(x_game_get_xbox_title_id(Some(&g)), Ok(0xFFFF_FFFF));
    let g = game("3575FB77");
    assert_eq!(x_game_get_xbox_title_id(Some(&g)), Ok(0x3575FB77));
    assert_eq!(x_game_get_xbox_title_id(None), Err(E_FAIL));
    assert_eq!(low_u32(-1), 0xFFFF_FFFF);
    assert_eq!(low_u32(-0x1_0000_0000), 0);
}

#[test]
fn license_token_response_holds_token() {
    let r = LicenseTokenResponse { license_token: "tok".to_string() };
    assert_eq!(r.license_token, "tok");
}
