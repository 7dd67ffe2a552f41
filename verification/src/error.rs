//! Errors surfaced by every backend and operation.
use vstd::prelude::*;

verus! {

/// Errors surfaced by a backend or an operation.
///
/// Each variant carries the human-readable detail message.
#[derive(Debug)]
pub enum LoreError {
    /// The `lore` binary could not be found or failed to launch.
    CliUnavailable(String),
    /// A `lore` invocation exited non-zero.
    CommandFailed(String),
    /// Output from `lore` could not be parsed into the expected shape.
    Parse(String),
    /// No working tree / repository at the configured path.
    NoRepository(String),
    /// Anything from the in-process engine adapter.
    Client(String),
}

/// The result type of every backend call and operation.
pub type Result<T> = std::result::Result<T, LoreError>;

/// The text a `LoreError` displays as: a fixed prefix per kind, then the detail.
pub open spec fn error_text(e: LoreError) -> Seq<char> {
    match e {
        LoreError::CliUnavailable(m) => "lore CLI not found or failed to launch: "@ + m@,
        LoreError::CommandFailed(m) => "lore command failed: "@ + m@,
        LoreError::Parse(m) => "could not parse lore output: "@ + m@,
        LoreError::NoRepository(m) => "no Lore repository at the configured path: "@ + m@,
        LoreError::Client(m) => "lore client error: "@ + m@,
    }
}

/// Joins a literal and a string.
pub fn prefixed(lit: &str, s: &str) -> (r: String)
    ensures
        r@ == lit@ + s@,
{
    let mut r = String::from_str(lit);
    r.append(s);
    r
}

impl LoreError {
    /// The human-readable text of this error.
    pub fn to_text(&self) -> (r: String)
        ensures
            r@ == error_text(*self),
    {
        match self {
            LoreError::CliUnavailable(m) => prefixed("lore CLI not found or failed to launch: ", m.as_str()),
            LoreError::CommandFailed(m) => prefixed("lore command failed: ", m.as_str()),
            LoreError::Parse(m) => prefixed("could not parse lore output: ", m.as_str()),
            LoreError::NoRepository(m) => prefixed("no Lore repository at the configured path: ", m.as_str()),
            LoreError::Client(m) => prefixed("lore client error: ", m.as_str()),
        }
    }

    /// The detail message carried by this error.
    pub fn message(&self) -> (r: &String)
        ensures
            match *self {
                LoreError::CliUnavailable(m) => *r == m,
                LoreError::CommandFailed(m) => *r == m,
                LoreError::Parse(m) => *r == m,
                LoreError::NoRepository(m) => *r == m,
                LoreError::Client(m) => *r == m,
            },
    {
        match self {
            LoreError::CliUnavailable(m) => m,
            LoreError::CommandFailed(m) => m,
            LoreError::Parse(m) => m,
            LoreError::NoRepository(m) => m,
            LoreError::Client(m) => m,
        }
    }
}

} // verus!
