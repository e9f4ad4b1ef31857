use deployer_lib::params::{
    parse_i64, parse_u128, parse_u64, required, required_all, ProgramError, ProgramParams,
};

#[test]
fn later_binding_overrides() {
    let mut p = ProgramParams::new();
    assert_eq!(p.get("owner"), None);
    p.insert("owner", "a");
    p.insert("pool", "b");
    p.insert("owner", "c");
    assert_eq!(p.get("owner"), Some("c".to_string()));
    assert_eq!(p.get("pool"), Some("b".to_string()));
    assert_eq!(p.get("other"), None);
}

#[test]
fn required_names_the_missing_key() {
    let mut p = ProgramParams::new();
    p.insert("b", "2");
    match required(&p, "a") {
        Err(ProgramError::MissingParameter(k)) => assert_eq!(k, "a"),
        _ => panic!("expected a missing parameter"),
    }
    assert_eq!(required(&p, "b").unwrap(), "2");
    match required_all(&p, &vec!["b", "c", "d"]) {
        Err(ProgramError::MissingParameter(k)) => assert_eq!(k, "c"),
        _ => panic!("expected a missing parameter"),
    }
    p.insert("c", "3");
    assert_eq!(required_all(&p, &vec!["c", "b"]).unwrap(), vec!["3".to_string(), "2".to_string()]);
}

#[test]
fn unsigned_parsing() {
    assert_eq!(parse_u64("3600"), Some(3600));
    assert_eq!(parse_u64("+7"), Some(7));
    assert_eq!(parse_u64("007"), Some(7));
    assert_eq!(parse_u64(""), None);
    assert_eq!(parse_u64("+"), None);
    assert_eq!(parse_u64("-1"), None);
    assert_eq!(parse_u64("12a"), None);
    assert_eq!(parse_u64(" 1"), None);
    assert_eq!(parse_u64("18446744073709551615"), Some(u64::MAX));
    assert_eq!(parse_u64("18446744073709551616"), None);
    assert_eq!(parse_u128("340282366920938463463374607431768211455"), Some(u128::MAX));
    assert_eq!(parse_u128("340282366920938463463374607431768211456"), None);
    assert_eq!(parse_u128("1000000000"), Some(1_000_000_000));
}

#[test]
fn signed_parsing() {
    assert_eq!(parse_i64("-100000"), Some(-100000));
    assert_eq!(parse_i64("100000"), Some(100000));
    assert_eq!(parse_i64("+5"), Some(5));
    assert_eq!(parse_i64("-0"), Some(0));
    assert_eq!(parse_i64("-9223372036854775808"), Some(i64::MIN));
    assert_eq!(parse_i64("9223372036854775807"), Some(i64::MAX));
    assert_eq!(parse_i64("9223372036854775808"), None);
    assert_eq!(parse_i64("-9223372036854775809"), None);
    assert_eq!(parse_i64("-"), None);
    assert_eq!(parse_i64("--1"), None);
    assert_eq!(parse_i64("-+1"), None);
}

#[test]
fn parsing_agrees_with_std() {
    for s in ["0", "42", "+42", "-42", "", "x", "99999999999999999999", "-9223372036854775808"] {
        assert_eq!(parse_u64(s), s.parse::<u64>().ok());
        assert_eq!(parse_i64(s), s.parse::<i64>().ok());
        assert_eq!(parse_u128(s), s.parse::<u128>().ok());
    }
}
