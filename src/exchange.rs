use vstd::prelude::*;

use crate::error::Error;
use crate::result::{check_result, failure_of, is_success, ExecStatus, ResultInfo};
use crate::stmt::ExecuteCall;

verus! {

/// Where an execution stands in its exchange with the server.
#[derive(Debug, Clone, Copy, PartialEq, Eq)]
pub enum ExchangeStage {
    /// The request has been handed to the send call; its outcome is awaited.
    AwaitSend,
    /// Row-by-row delivery has been asked for; its outcome is awaited.
    AwaitSingleRowMode,
    /// The first response is awaited.
    AwaitResult,
    /// Rows are arriving one per response, until the terminal marker.
    Streaming,
    /// Nothing more is to be fetched for this request.
    Finished,
}

/// What the connection reported of the last native call.
#[derive(Debug, PartialEq, Eq)]
pub enum NativeEvent {
    /// The send call returned; on failure, with the connection's message.
    Sent(Result<(), String>),
    /// The call that asks for row-by-row delivery returned whether it was accepted.
    SingleRowMode(bool),
    /// The fetch call returned a response, or nothing.
    Fetched(Option<ResultInfo>),
}

/// What the caller of the native calls is to do next.
#[derive(Debug, PartialEq, Eq)]
pub enum NextAction {
    /// Ask the connection to deliver the results row by row.
    EnableSingleRowMode,
    /// Fetch the next response.
    FetchResult,
    /// Hand the response just fetched to the caller.
    Deliver,
    /// The rows of a streamed response are all delivered.
    EndOfRows,
    /// Release what was fetched and return the error.
    Fail(Error),
    /// The connection broke the exchange's order: a defect, not a recoverable failure.
    Abort,
}

/// The stage after `event` arrives in `stage`.
pub open spec fn next_stage(stage: ExchangeStage, row_by_row: bool, event: NativeEvent) -> ExchangeStage {
    match (stage, event) {
        (ExchangeStage::AwaitSend, NativeEvent::Sent(Ok(()))) => if row_by_row {
            ExchangeStage::AwaitSingleRowMode
        } else {
            ExchangeStage::AwaitResult
        },
        (ExchangeStage::AwaitSingleRowMode, NativeEvent::SingleRowMode(true)) => ExchangeStage::AwaitResult,
        (ExchangeStage::AwaitResult, NativeEvent::Fetched(Some(info))) =>
            if is_success(info.status) && row_by_row && info.status == ExecStatus::SingleTuple {
                ExchangeStage::Streaming
            } else {
                ExchangeStage::Finished
            },
        (ExchangeStage::Streaming, NativeEvent::Fetched(Some(info))) =>
            if info.status == ExecStatus::SingleTuple {
                ExchangeStage::Streaming
            } else {
                ExchangeStage::Finished
            },
        _ => ExchangeStage::Finished,
    }
}

/// What is to be done after `event` arrives in `stage`.
pub open spec fn next_action(stage: ExchangeStage, row_by_row: bool, event: NativeEvent) -> NextAction {
    match (stage, event) {
        (ExchangeStage::AwaitSend, NativeEvent::Sent(Ok(()))) => if row_by_row {
            NextAction::EnableSingleRowMode
        } else {
            NextAction::FetchResult
        },
        (ExchangeStage::AwaitSend, NativeEvent::Sent(Err(message))) => NextAction::Fail(
            Error::Connection(message),
        ),
        (ExchangeStage::AwaitSingleRowMode, NativeEvent::SingleRowMode(true)) => NextAction::FetchResult,
        (ExchangeStage::AwaitSingleRowMode, NativeEvent::SingleRowMode(false)) => NextAction::Fail(
            Error::SingleRowModeRefused,
        ),
        (ExchangeStage::AwaitResult, NativeEvent::Fetched(Some(info))) => if is_success(info.status) {
            NextAction::Deliver
        } else {
            NextAction::Fail(failure_of(info))
        },
        (ExchangeStage::Streaming, NativeEvent::Fetched(Some(info))) =>
            if info.status == ExecStatus::SingleTuple {
                NextAction::Deliver
            } else if is_success(info.status) {
                NextAction::EndOfRows
            } else {
                NextAction::Fail(failure_of(info))
            },
        (ExchangeStage::Streaming, NativeEvent::Fetched(None)) => NextAction::EndOfRows,
        _ => NextAction::Abort,
    }
}

/// The decisions of one execution, from the send call to the last response.
#[derive(Debug, PartialEq, Eq)]
pub struct Exchange {
    pub row_by_row: bool,
    pub stage: ExchangeStage,
}

impl Exchange {
    /// The exchange of `call`, once it has been handed to the send call.
    pub fn new(call: &ExecuteCall) -> (r: Exchange)
        ensures
            r.row_by_row == call.row_by_row,
            r.stage == ExchangeStage::AwaitSend,
    {
        Exchange { row_by_row: call.row_by_row, stage: ExchangeStage::AwaitSend }
    }

    /// Takes what the last native call reported and says what to do next.
    pub fn advance(&mut self, event: NativeEvent) -> (a: NextAction)
        ensures
            final(self).row_by_row == old(self).row_by_row,
            final(self).stage == next_stage(old(self).stage, old(self).row_by_row, event),
            a == next_action(old(self).stage, old(self).row_by_row, event),
    {
        let row_by_row = self.row_by_row;
        match (self.stage, event) {
            (ExchangeStage::AwaitSend, NativeEvent::Sent(Ok(()))) => {
                if row_by_row {
                    self.stage = ExchangeStage::AwaitSingleRowMode;
                    NextAction::EnableSingleRowMode
                } else {
                    self.stage = ExchangeStage::AwaitResult;
                    NextAction::FetchResult
                }
            },
            (ExchangeStage::AwaitSend, NativeEvent::Sent(Err(message))) => {
                self.stage = ExchangeStage::Finished;
                NextAction::Fail(Error::Connection(message))
            },
            (ExchangeStage::AwaitSingleRowMode, NativeEvent::SingleRowMode(accepted)) => {
                if accepted {
                    self.stage = ExchangeStage::AwaitResult;
                    NextAction::FetchResult
                } else {
                    self.stage = ExchangeStage::Finished;
                    NextAction::Fail(Error::SingleRowModeRefused)
                }
            },
            (ExchangeStage::AwaitResult, NativeEvent::Fetched(Some(info))) => {
                let single = matches!(info.status, ExecStatus::SingleTuple);
                match check_result(info) {
                    Ok(()) => {
                        if row_by_row && single {
                            self.stage = ExchangeStage::Streaming;
                        } else {
                            self.stage = ExchangeStage::Finished;
                        }
                        NextAction::Deliver
                    },
                    Err(e) => {
                        self.stage = ExchangeStage::Finished;
                        NextAction::Fail(e)
                    },
                }
            },
            (ExchangeStage::Streaming, NativeEvent::Fetched(Some(info))) => {
                if matches!(info.status, ExecStatus::SingleTuple) {
                    NextAction::Deliver
                } else {
                    self.stage = ExchangeStage::Finished;
                    match check_result(info) {
                        Ok(()) => NextAction::EndOfRows,
                        Err(e) => NextAction::Fail(e),
                    }
                }
            },
            (ExchangeStage::Streaming, NativeEvent::Fetched(None)) => {
                self.stage = ExchangeStage::Finished;
                NextAction::EndOfRows
            },
            _ => {
                self.stage = ExchangeStage::Finished;
                NextAction::Abort
            },
        }
    }
}

/// Row-by-row delivery is asked for right after the request is sent, before any response is
/// fetched; without it, the first response is fetched at once.
pub proof fn lemma_single_row_mode_precedes_fetch(row_by_row: bool)
    ensures
        row_by_row ==> next_action(ExchangeStage::AwaitSend, row_by_row, NativeEvent::Sent(Ok(())))
            == NextAction::EnableSingleRowMode,
        !row_by_row ==> next_action(ExchangeStage::AwaitSend, row_by_row, NativeEvent::Sent(Ok(())))
            == NextAction::FetchResult,
        next_action(ExchangeStage::AwaitSingleRowMode, row_by_row, NativeEvent::SingleRowMode(true))
            == NextAction::FetchResult,
{
}

/// Without row-by-row delivery an execution yields exactly one response: after it is fetched
/// the exchange is finished, whatever it holds.
pub proof fn lemma_plain_mode_yields_one_result(info: ResultInfo)
    ensures
        next_stage(ExchangeStage::AwaitResult, false, NativeEvent::Fetched(Some(info)))
            == ExchangeStage::Finished,
        is_success(info.status) ==> next_action(
            ExchangeStage::AwaitResult,
            false,
            NativeEvent::Fetched(Some(info)),
        ) == NextAction::Deliver,
{
}

/// While rows are streamed, each response delivered is a single row, and the stream stays
/// open until the terminal marker or the end of the responses closes it.
pub proof fn lemma_streaming_delivers_single_rows(event: NativeEvent)
    ensures
        next_action(ExchangeStage::Streaming, true, event) == NextAction::Deliver ==> match event {
            NativeEvent::Fetched(Some(info)) => info.status == ExecStatus::SingleTuple,
            _ => false,
        },
        next_action(ExchangeStage::Streaming, true, event) == NextAction::Deliver <==> next_stage(
            ExchangeStage::Streaming,
            true,
            event,
        ) == ExchangeStage::Streaming,
        next_action(ExchangeStage::Streaming, true, NativeEvent::Fetched(None)) == NextAction::EndOfRows,
{
}

} // verus!
