use pg_stmt::error::{Diagnostics, Error};
use pg_stmt::exchange::{Exchange, ExchangeStage, NativeEvent, NextAction};
use pg_stmt::result::{check_result, ExecStatus, ResultInfo};
use pg_stmt::stmt::{PrepareForCache, Statement};
use pg_stmt::types::{PgTypeMetadata, INT4_OID};

fn info(status: ExecStatus) -> ResultInfo {
    ResultInfo {
        status,
        diagnostics: Diagnostics { message: String::new(), sqlstate: String::new(), severity: String::new() },
    }
}

fn exchange(row_by_row: bool) -> Exchange {
    let call = Statement::prepare("SELECT $1::int4", PrepareForCache::No, &[PgTypeMetadata::new(INT4_OID, 1007)]).unwrap();
    let st = Statement::from_prepared(call, Ok(info(ExecStatus::CommandOk))).unwrap();
    let call = st.execute(&[Some(vec![0, 0, 0, 42])], row_by_row).unwrap();
    Exchange::new(&call)
}

#[test]
fn plain_execution_yields_one_result() {
    let mut ex = exchange(false);
    assert_eq!(ex.stage, ExchangeStage::AwaitSend);
    assert_eq!(ex.advance(NativeEvent::Sent(Ok(()))), NextAction::FetchResult);
    assert_eq!(ex.advance(NativeEvent::Fetched(Some(info(ExecStatus::TuplesOk)))), NextAction::Deliver);
    assert_eq!(ex.stage, ExchangeStage::Finished);
    assert_eq!(ex.advance(NativeEvent::Fetched(None)), NextAction::Abort);
}

#[test]
fn streaming_execution_yields_rows_until_marker() {
    let mut ex = exchange(true);
    assert_eq!(ex.advance(NativeEvent::Sent(Ok(()))), NextAction::EnableSingleRowMode);
    assert_eq!(ex.advance(NativeEvent::SingleRowMode(true)), NextAction::FetchResult);
    assert_eq!(ex.advance(NativeEvent::Fetched(Some(info(ExecStatus::SingleTuple)))), NextAction::Deliver);
    assert_eq!(ex.stage, ExchangeStage::Streaming);
    assert_eq!(ex.advance(NativeEvent::Fetched(Some(info(ExecStatus::SingleTuple)))), NextAction::Deliver);
    assert_eq!(ex.stage, ExchangeStage::Streaming);
    assert_eq!(ex.advance(NativeEvent::Fetched(Some(info(ExecStatus::TuplesOk)))), NextAction::EndOfRows);
    assert_eq!(ex.stage, ExchangeStage::Finished);
}

#[test]
fn streaming_of_empty_result_finishes_at_once() {
    let mut ex = exchange(true);
    ex.advance(NativeEvent::Sent(Ok(())));
    ex.advance(NativeEvent::SingleRowMode(true));
    assert_eq!(ex.advance(NativeEvent::Fetched(Some(info(ExecStatus::TuplesOk)))), NextAction::Deliver);
    assert_eq!(ex.stage, ExchangeStage::Finished);
}

#[test]
fn send_failure_is_a_connection_error() {
    let mut ex = exchange(false);
    let a = ex.advance(NativeEvent::Sent(Err("no connection to the server".to_string())));
    assert_eq!(a, NextAction::Fail(Error::Connection("no connection to the server".to_string())));
    assert_eq!(ex.stage, ExchangeStage::Finished);
}

#[test]
fn refused_single_row_mode_fails() {
    let mut ex = exchange(true);
    ex.advance(NativeEvent::Sent(Ok(())));
    assert_eq!(ex.advance(NativeEvent::SingleRowMode(false)), NextAction::Fail(Error::SingleRowModeRefused));
}

#[test]
fn missing_result_aborts() {
    let mut ex = exchange(false);
    ex.advance(NativeEvent::Sent(Ok(())));
    assert_eq!(ex.advance(NativeEvent::Fetched(None)), NextAction::Abort);
}

#[test]
fn backend_error_during_execution() {
    let mut ex = exchange(false);
    ex.advance(NativeEvent::Sent(Ok(())));
    let d = Diagnostics {
        message: "duplicate key value violates unique constraint".to_string(),
        sqlstate: "23505".to_string(),
        severity: "ERROR".to_string(),
    };
    let r = ex.advance(NativeEvent::Fetched(Some(ResultInfo { status: ExecStatus::FatalError, diagnostics: d.clone() })));
    assert_eq!(r, NextAction::Fail(Error::Query(d)));
}

#[test]
fn result_statuses() {
    for s in [ExecStatus::CommandOk, ExecStatus::TuplesOk, ExecStatus::SingleTuple, ExecStatus::CopyIn, ExecStatus::CopyOut] {
        assert_eq!(check_result(info(s)), Ok(()));
    }
    assert_eq!(check_result(info(ExecStatus::EmptyQuery)), Err(Error::EmptyQuery));
    for s in [ExecStatus::BadResponse, ExecStatus::NonfatalError, ExecStatus::FatalError, ExecStatus::CopyBoth, ExecStatus::PipelineSync, ExecStatus::PipelineAborted] {
        assert!(matches!(check_result(info(s)), Err(Error::Query(_))));
    }
}
