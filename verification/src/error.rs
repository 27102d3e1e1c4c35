use vstd::prelude::*;
use vstd::string::StringExecFns;

verus! {

/// The failure taxonomy of the service. Every failure is kept as its own
/// variant internally, even though the HTTP surface flattens them all to one
/// status; each variant carries a human-readable detail string.
#[derive(Debug, Clone)]
pub enum Error {
    /// Malformed connection URL or unreachable store at startup; fatal.
    Config(String),
    /// No pooled connection became available within the wait bound.
    PoolExhausted(String),
    /// Establishing or keeping a connection to the store failed.
    Connection(String),
    /// The sampling query itself failed; the transaction is rolled back.
    Query(String),
    /// The transaction could not be committed after a successful query.
    /// The store decides the effect; this library assumes a rollback.
    Commit(String),
}

/// Body of the uniform failure response sent to HTTP clients: a fixed
/// status code and a short human-readable message.
#[derive(Debug, Clone)]
pub struct ErrorResponse {
    pub status_code: u16,
    pub message: String,
}

/// The message an error renders to: a variant prefix followed by the detail.
pub open spec fn message_of(e: Error) -> Seq<char> {
    match e {
        Error::Config(d) => "config: "@ + d@,
        Error::PoolExhausted(d) => "pool exhausted: "@ + d@,
        Error::Connection(d) => "connection: "@ + d@,
        Error::Query(d) => "query: "@ + d@,
        Error::Commit(d) => "commit: "@ + d@,
    }
}

impl Error {
    /// Render this error as a short human-readable message. The message is
    /// never empty: every variant contributes a non-empty prefix.
    pub fn message(&self) -> (r: String)
        ensures
            r@ == message_of(*self),
            r@.len() > 0,
    {
        proof {
            reveal_strlit("config: ");
            reveal_strlit("pool exhausted: ");
            reveal_strlit("connection: ");
            reveal_strlit("query: ");
            reveal_strlit("commit: ");
        }
        match self {
            Error::Config(d) => String::from_str("config: ").concat(d.as_str()),
            Error::PoolExhausted(d) => String::from_str("pool exhausted: ").concat(d.as_str()),
            Error::Connection(d) => String::from_str("connection: ").concat(d.as_str()),
            Error::Query(d) => String::from_str("query: ").concat(d.as_str()),
            Error::Commit(d) => String::from_str("commit: ").concat(d.as_str()),
        }
    }

    /// Map this error to the uniform external failure shape: a fixed 500
    /// status and the rendered message, which is never empty. No internal
    /// detail beyond the message leaks out.
    pub fn into_response(self) -> (r: ErrorResponse)
        ensures
            r.status_code == 500,
            r.message@ == message_of(self),
            r.message@.len() > 0,
    {
        ErrorResponse { status_code: 500, message: self.message() }
    }
}

} // verus!
