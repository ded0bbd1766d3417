use eldenring::sos_sign_man::{SteamIdStr, SummonJobErrorCode};

fn steam(s: &str) -> SteamIdStr {
    let mut units = [0u16; 17];
    for (i, u) in s.encode_utf16().enumerate() {
        units[i] = u;
    }
    SteamIdStr(units)
}

#[test]
fn steam_id_parses_hex() {
    assert_eq!(steam("0110000100000001").to_u64().unwrap(), 0x0110_0001_0000_0001);
    assert_eq!(steam("ff").to_u64().unwrap(), 255);
    assert_eq!(steam("+A").to_u64().unwrap(), 10);
    assert_eq!(steam("ffffffffffffffff").to_u64().unwrap(), u64::MAX);
}

#[test]
fn steam_id_errors() {
    assert!(steam("").to_u64().is_err());
    assert!(steam("+").to_u64().is_err());
    assert!(steam("-1").to_u64().is_err());
    assert!(steam("xyz").to_u64().is_err());
    assert!(steam("10000000000000000").to_u64().is_err());
}

#[test]
fn steam_id_full_buffer_without_nul() {
    let s = SteamIdStr([0x31; 17]);
    // seventeen hex digits do not fit in a u64
    assert!(s.to_u64().is_err());
    assert_eq!(u64::from(s), 0);
}

#[test]
fn steam_id_stops_at_nul() {
    let mut s = steam("12");
    s.0[3] = 0x33;
    assert_eq!(s.to_u64().unwrap(), 0x12);
}

#[test]
fn steam_id_to_u64_and_string() {
    assert_eq!(u64::from(steam("1f")), 31);
    assert_eq!(u64::from(steam("zz")), 0);
    assert_eq!(steam("1f").to_string(), "31");
    assert_eq!(steam("").to_string(), "0");
    assert_eq!(steam("ffffffffffffffff").to_string(), "18446744073709551615");
}

#[test]
fn summon_job_error_codes() {
    assert_eq!(SummonJobErrorCode::Default.code(), -70);
    assert_eq!(SummonJobErrorCode::SignDataNotFound.code(), -84);
    assert_eq!(SummonJobErrorCode::InvalidCoordinates.code(), -83);
}
