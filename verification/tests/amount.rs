use offline_wallet::amount::parse_units;

#[test]
fn btc_amounts_in_satoshi() {
    assert_eq!(parse_units("1.5", 8), Ok(150000000));
    assert_eq!(parse_units("1", 8), Ok(100000000));
    assert_eq!(parse_units("0.00000001", 8), Ok(1));
    assert_eq!(parse_units("0.29", 8), Ok(29000000));
    assert_eq!(parse_units("21000000", 8), Ok(2100000000000000));
}

#[test]
fn sol_amounts_in_lamports() {
    assert_eq!(parse_units("2.0", 9), Ok(2000000000));
    assert_eq!(parse_units("0.000000001", 9), Ok(1));
    assert_eq!(parse_units("0.5", 9), Ok(500000000));
}

#[test]
fn digits_beyond_the_places_are_cut_off() {
    assert_eq!(parse_units("0.123456789", 8), Ok(12345678));
    assert_eq!(parse_units("0.999999999", 8), Ok(99999999));
    assert_eq!(parse_units("0.000000009", 8), Ok(0));
    assert_eq!(parse_units("12.34", 0), Ok(12));
}

#[test]
fn signs_and_bare_points() {
    assert_eq!(parse_units("+1", 8), Ok(100000000));
    assert_eq!(parse_units("-1", 8), Ok(0));
    assert_eq!(parse_units("-0.5", 8), Ok(0));
    assert_eq!(parse_units(".5", 8), Ok(50000000));
    assert_eq!(parse_units("5.", 8), Ok(500000000));
    assert_eq!(parse_units("007", 2), Ok(700));
}

#[test]
fn amounts_out_of_range_are_clamped() {
    assert_eq!(parse_units("184467440737.09551615", 8), Ok(u64::MAX));
    assert_eq!(parse_units("184467440737.09551616", 8), Ok(u64::MAX));
    assert_eq!(parse_units("184467440737.09551614", 8), Ok(u64::MAX - 1));
    assert_eq!(parse_units("99999999999999999999999999999999", 8), Ok(u64::MAX));
}

#[test]
fn what_is_no_amount() {
    assert_eq!(parse_units("", 8), Err("cannot parse float from empty string".to_string()));
    for bad in ["abc", "1.2.3", ".", "+", "-", "1e3", "1,5", " 1", "1 ", "0x10", "١"] {
        assert_eq!(parse_units(bad, 8), Err("invalid float literal".to_string()));
    }
}
