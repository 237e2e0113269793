use pg_stmt::name::{cached_statement_name, decimal_bytes};

#[test]
fn decimal_rendering() {
    assert_eq!(decimal_bytes(0), b"0".to_vec());
    assert_eq!(decimal_bytes(9), b"9".to_vec());
    assert_eq!(decimal_bytes(10), b"10".to_vec());
    assert_eq!(decimal_bytes(305), b"305".to_vec());
    assert_eq!(decimal_bytes(u64::MAX), b"18446744073709551615".to_vec());
}

#[test]
fn statement_name_prefix() {
    assert_eq!(cached_statement_name(0), b"__diesel_stmt_0".to_vec());
    assert_eq!(cached_statement_name(42), b"__diesel_stmt_42".to_vec());
}
