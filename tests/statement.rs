use pg_stmt::error::{Diagnostics, EncodingError, Error, SerializationError};
use pg_stmt::result::{ExecStatus, ResultInfo};
use pg_stmt::stmt::{Dispatch, PrepareForCache, Statement, BINARY_FORMAT};
use pg_stmt::types::{PgTypeMetadata, INT4_OID, TEXT_OID};

fn no_diagnostics() -> Diagnostics {
    Diagnostics { message: String::new(), sqlstate: String::new(), severity: String::new() }
}

fn ok_info(status: ExecStatus) -> ResultInfo {
    ResultInfo { status, diagnostics: no_diagnostics() }
}

fn int4() -> PgTypeMetadata {
    PgTypeMetadata::new(INT4_OID, 1007)
}

fn prepared(sql: &str, is_cached: PrepareForCache, types: &[PgTypeMetadata]) -> Statement {
    let call = Statement::prepare(sql, is_cached, types).unwrap();
    Statement::from_prepared(call, Ok(ok_info(ExecStatus::CommandOk))).unwrap()
}

#[test]
fn uncached_prepare_of_int4_select() {
    let call = Statement::prepare("SELECT $1::int4", PrepareForCache::No, &[int4()]).unwrap();
    assert_eq!(call.name(), b"");
    assert_eq!(call.sql(), b"SELECT $1::int4");
    assert_eq!(call.param_types(), &[INT4_OID]);
    assert_eq!(call.param_count(), 1);
    let st = Statement::from_prepared(call, Ok(ok_info(ExecStatus::CommandOk))).unwrap();
    assert_eq!(st.name(), b"");
    assert_eq!(st.param_formats(), &[BINARY_FORMAT]);
}

#[test]
fn uncached_execute_resends_sql() {
    let st = prepared("SELECT $1::int4", PrepareForCache::No, &[int4()]);
    let value = 42i32.to_be_bytes().to_vec();
    assert_eq!(value, vec![0, 0, 0, 42]);
    let call = st.execute(&[Some(value)], false).unwrap();
    assert_eq!(call.dispatch, Dispatch::Unnamed { sql: b"SELECT $1::int4".to_vec() });
    assert_eq!(call.param_count, 1);
    assert_eq!(call.param_present, vec![true]);
    assert_eq!(call.param_lengths, vec![4]);
    assert_eq!(call.param_formats, vec![1]);
    assert_eq!(call.result_format, 1);
    assert!(!call.row_by_row);
}

#[test]
fn cached_prepare_names_statement() {
    let st = prepared("SELECT $1::int4", PrepareForCache::Yes { counter: 0 }, &[int4()]);
    assert_eq!(st.name(), b"__diesel_stmt_0");
    let call = st.execute(&[Some(vec![0, 0, 0, 42])], false).unwrap();
    assert_eq!(call.dispatch, Dispatch::Named { name: b"__diesel_stmt_0".to_vec() });
    assert_eq!(call.param_lengths, vec![4]);
    assert_eq!(call.param_formats, vec![1]);
}

#[test]
fn cached_names_follow_the_counter() {
    let a = Statement::prepare("SELECT 1", PrepareForCache::Yes { counter: 7 }, &[]).unwrap();
    let b = Statement::prepare("SELECT 1", PrepareForCache::Yes { counter: 1234567890 }, &[]).unwrap();
    let c = Statement::prepare("SELECT 1", PrepareForCache::Yes { counter: u64::MAX }, &[]).unwrap();
    assert_eq!(a.name(), b"__diesel_stmt_7");
    assert_eq!(b.name(), b"__diesel_stmt_1234567890");
    assert_eq!(c.name(), b"__diesel_stmt_18446744073709551615");
    assert_ne!(a.name(), b.name());
    let d = Statement::prepare("SELECT 1", PrepareForCache::Yes { counter: 70 }, &[]).unwrap();
    assert_ne!(a.name(), d.name());
}

#[test]
fn mixed_present_and_absent_parameters() {
    let types = [int4(), PgTypeMetadata::new(TEXT_OID, 1009), int4()];
    let st = prepared("SELECT $1::int4, $2::text, $3::int4", PrepareForCache::No, &types);
    let params = vec![None, Some(b"hello".to_vec()), Some(Vec::new())];
    let call = st.execute(&params, true).unwrap();
    assert_eq!(call.param_count, 3);
    assert_eq!(call.param_present, vec![false, true, true]);
    assert_eq!(call.param_lengths, vec![0, 5, 0]);
    assert_eq!(call.param_formats, vec![1, 1, 1]);
    assert!(call.row_by_row);
}

#[test]
fn no_parameters() {
    let st = prepared("SELECT 1", PrepareForCache::No, &[]);
    let call = st.execute(&[], false).unwrap();
    assert_eq!(call.param_count, 0);
    assert!(call.param_present.is_empty());
    assert!(call.param_lengths.is_empty());
    assert!(call.param_formats.is_empty());
}

#[test]
fn nul_in_sql_is_an_encoding_error() {
    let r = Statement::prepare("SELECT 1\0; DROP", PrepareForCache::No, &[]);
    assert_eq!(r.unwrap_err(), Error::Encoding(EncodingError::NulInSql { position: 8 }));
    let r = Statement::prepare("\0\0", PrepareForCache::Yes { counter: 3 }, &[]);
    assert_eq!(r.unwrap_err(), Error::Encoding(EncodingError::NulInSql { position: 0 }));
}

#[test]
fn nul_in_string_parameter_is_an_encoding_error() {
    let types = [int4(), PgTypeMetadata::new(TEXT_OID, 1009)];
    let st = prepared("SELECT $1::int4, $2::text", PrepareForCache::No, &types);
    let r = st.execute(&[Some(vec![0, 0, 0, 1]), Some(b"ab\0c".to_vec())], false);
    assert_eq!(r.unwrap_err(), Error::Encoding(EncodingError::NulInParameter { index: 1, position: 2 }));
}

#[test]
fn unknown_type_is_a_serialization_error() {
    let types = [int4(), PgTypeMetadata::from_failed_lookup("my_enum".to_string()), PgTypeMetadata::from_failed_lookup("other".to_string())];
    let r = Statement::prepare("SELECT $1, $2, $3", PrepareForCache::No, &types);
    assert_eq!(
        r.unwrap_err(),
        Error::Serialization(SerializationError::UnknownType { index: 1, sql_type: "my_enum".to_string() })
    );
}

#[test]
fn nul_in_sql_is_found_before_type_lookup() {
    let types = [PgTypeMetadata::from_failed_lookup("my_enum".to_string())];
    let r = Statement::prepare("SELECT\0", PrepareForCache::No, &types);
    assert_eq!(r.unwrap_err(), Error::Encoding(EncodingError::NulInSql { position: 6 }));
}

#[test]
fn parameter_count_mismatch_fails() {
    let st = prepared("SELECT $1::int4", PrepareForCache::No, &[int4()]);
    let r = st.execute(&[], false);
    assert_eq!(
        r.unwrap_err(),
        Error::Serialization(SerializationError::ParameterCountMismatch { expected: 1, given: 0 })
    );
    let r = st.execute(&[Some(vec![0, 0, 0, 1]), Some(vec![0, 0, 0, 2])], false);
    assert_eq!(
        r.unwrap_err(),
        Error::Serialization(SerializationError::ParameterCountMismatch { expected: 1, given: 2 })
    );
}

#[test]
fn rejected_prepare_carries_diagnostics() {
    let call = Statement::prepare("SELEC 1", PrepareForCache::No, &[]).unwrap();
    let diagnostics = Diagnostics {
        message: "syntax error at or near \"SELEC\"".to_string(),
        sqlstate: "42601".to_string(),
        severity: "ERROR".to_string(),
    };
    let info = ResultInfo { status: ExecStatus::FatalError, diagnostics: diagnostics.clone() };
    assert_eq!(Statement::from_prepared(call, Ok(info)).unwrap_err(), Error::Query(diagnostics));
}

#[test]
fn prepare_without_response_is_a_connection_error() {
    let call = Statement::prepare("SELECT 1", PrepareForCache::No, &[]).unwrap();
    let r = Statement::from_prepared(call, Err("server closed the connection".to_string()));
    assert_eq!(r.unwrap_err(), Error::Connection("server closed the connection".to_string()));
}

#[test]
fn empty_query_status_is_reported() {
    let call = Statement::prepare("", PrepareForCache::No, &[]).unwrap();
    let r = Statement::from_prepared(call, Ok(ok_info(ExecStatus::EmptyQuery)));
    assert_eq!(r.unwrap_err(), Error::EmptyQuery);
}
