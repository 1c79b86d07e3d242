//! The error type of the library.
use crate::engine::{OpOutcome, OperationFailure};
use vstd::prelude::*;

verus! {

/// Every way an operation of the library can fail.
///
/// `Request`, `Http` and `Malformed` come from a round trip that changed
/// nothing locally. `OperationsFailed`, `AmbiguousOutcome` and
/// `MissingRealId` come from a batch whose response was read: the
/// continuation token has advanced and each carries the outcome of every
/// operation of the batch, in submission order.
#[derive(Debug)]
pub enum TodoError {
    Config(String),
    /// The request produced no response (connection, TLS, timeout).
    Request(String),
    Api(String),
    /// A response outside the 2xx range, with its raw body.
    Http { status: u16, body: String },
    /// A 2xx response whose body does not have the expected shape.
    Malformed(String),
    InvalidInput(String),
    ConfigNotFound,
    Serialize(String),
    Io(String),
    /// The server reported a failure for one or more operations.
    OperationsFailed { failures: Vec<OperationFailure>, outcomes: Vec<OpOutcome> },
    /// The server reported nothing for one or more operations: each may
    /// have been applied or not.
    AmbiguousOutcome { missing: Vec<String>, outcomes: Vec<OpOutcome> },
    /// Creations that the server accepted without naming what it created.
    MissingRealId { temp_ids: Vec<String>, outcomes: Vec<OpOutcome> },
}

pub type Result<T> = std::result::Result<T, TodoError>;

impl TodoError {
    /// The server refused for too many requests.
    pub fn is_rate_limited(&self) -> (r: bool)
        ensures
            r == (self matches TodoError::Http { status, .. } && status == 429),
    {
        match self {
            TodoError::Http { status, .. } => *status == 429,
            _ => false,
        }
    }

    /// The error comes from a round trip that left the token and the
    /// snapshot as they were.
    pub fn changed_nothing(&self) -> (r: bool)
        ensures
            r == (self is Request || self is Http || self is Malformed),
    {
        match self {
            TodoError::Request(_) | TodoError::Http { .. } | TodoError::Malformed(_) => true,
            _ => false,
        }
    }
}

} // verus!
