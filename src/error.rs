use vstd::prelude::*;

verus! {

/// A byte that a terminated native string cannot carry.
#[derive(Debug, Clone, PartialEq, Eq)]
pub enum EncodingError {
    /// The SQL text holds a zero byte at `position`.
    NulInSql { position: usize },
    /// The string-typed parameter `index` holds a zero byte at `position`.
    NulInParameter { index: usize, position: usize },
}

/// A failure to put the parameters into the wire format.
#[derive(Debug, Clone, PartialEq, Eq)]
pub enum SerializationError {
    /// The type of parameter `index` has no identifier for this backend.
    UnknownType { index: usize, sql_type: String },
    /// More parameters than the native integer width can count.
    TooManyParameters { count: usize },
    /// Parameter `index` is longer than the native integer width can state.
    ParameterTooLong { index: usize, length: usize },
    /// The statement declares `expected` parameters and was given `given`.
    ParameterCountMismatch { expected: usize, given: usize },
}

/// What the backend reported of a failed request.
#[derive(Debug, Clone, PartialEq, Eq)]
pub struct Diagnostics {
    pub message: String,
    pub sqlstate: String,
    pub severity: String,
}

/// Every failure of preparing or executing a statement.
#[derive(Debug, Clone, PartialEq, Eq)]
pub enum Error {
    Encoding(EncodingError),
    Serialization(SerializationError),
    /// The server received a query with no statement in it.
    EmptyQuery,
    /// The server rejected the request.
    Query(Diagnostics),
    /// The request could not be handed to the server; the text is the connection's message.
    Connection(String),
    /// The connection refused to deliver the results row by row.
    SingleRowModeRefused,
}

} // verus!
