use vstd::prelude::*;

use crate::error::{Diagnostics, Error};

verus! {

/// The status of one completed response, as the client library reports it.
#[derive(Debug, Clone, Copy, PartialEq, Eq)]
pub enum ExecStatus {
    EmptyQuery,
    CommandOk,
    TuplesOk,
    CopyOut,
    CopyIn,
    BadResponse,
    NonfatalError,
    FatalError,
    CopyBoth,
    SingleTuple,
    PipelineSync,
    PipelineAborted,
}

/// The statuses under which a response holds what was asked for.
pub open spec fn is_success(status: ExecStatus) -> bool {
    match status {
        ExecStatus::CommandOk | ExecStatus::TuplesOk | ExecStatus::SingleTuple
        | ExecStatus::CopyIn | ExecStatus::CopyOut => true,
        _ => false,
    }
}

/// The error that a failed response turns into.
pub open spec fn failure_of(info: ResultInfo) -> Error {
    if info.status == ExecStatus::EmptyQuery {
        Error::EmptyQuery
    } else {
        Error::Query(info.diagnostics)
    }
}

/// What a response reports of itself: its status and, for a failure, the backend's diagnostics.
#[derive(Debug, Clone, PartialEq, Eq)]
pub struct ResultInfo {
    pub status: ExecStatus,
    pub diagnostics: Diagnostics,
}

/// Decides whether a response is a success, and turns a failure into an error that carries
/// the backend's diagnostics.
pub fn check_result(info: ResultInfo) -> (r: Result<(), Error>)
    ensures
        is_success(info.status) ==> r is Ok,
        !is_success(info.status) ==> r == Err::<(), Error>(failure_of(info)),
{
    match info.status {
        ExecStatus::CommandOk | ExecStatus::TuplesOk | ExecStatus::SingleTuple
        | ExecStatus::CopyIn | ExecStatus::CopyOut => Ok(()),
        ExecStatus::EmptyQuery => Err(Error::EmptyQuery),
        _ => Err(Error::Query(info.diagnostics)),
    }
}

} // verus!
