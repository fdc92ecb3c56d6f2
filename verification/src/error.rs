//! The errors of the rate limiter.

use vstd::prelude::*;
use vstd::std_specs::convert::FromSpecImpl;
use vstd::string::*;

verus! {

/// `std::io::Error`, carried through as an opaque value: the failure of the
/// underlying transport.
#[verifier::external_type_specification]
#[verifier::external_body]
pub struct ExIoError(std::io::Error);

/// `tokio_executor::SpawnError`, carried through as an opaque value: the
/// executor's refusal to take the background timer.
#[verifier::external_type_specification]
#[verifier::external_body]
pub struct ExSpawnError(tokio_executor::SpawnError);

/// The text by which `tokio_executor::SpawnError` describes itself: the
/// same for every value of it.
pub open spec fn spawn_failure() -> Seq<char> {
    "attempted to spawn task while the executor is at capacity or shut down"@
}

/// `Display` of `std::io::Error`: the error's description. What it says
/// depends on the error and on the platform that raised it, so nothing is
/// said of the text.
#[verifier::external_body]
fn io_error_text(e: &std::io::Error) -> String {
    format!("{}", e)
}

/// `Display` of `tokio_executor::SpawnError`: one fixed sentence, whether
/// the executor was shut down or at capacity.
#[verifier::external_body]
fn spawn_error_text(e: &tokio_executor::SpawnError) -> (s: String)
    ensures
        s@ == spawn_failure(),
{
    format!("{}", e)
}

#[derive(Debug)]
#[non_exhaustive]
pub enum Error {
    /// The underlying transport failed.
    Io(std::io::Error),
    /// The background timer could not be handed to the executor.
    Exec(tokio_executor::SpawnError),
    /// The pool has nothing left to give in this generation.
    NoCapacity,
    /// The background timer has died; the limiter is out of service.
    TimerError,
}

impl Error {
    /// What went wrong, in words: for a failure of the transport or of the
    /// executor a fixed prefix and then its own description, for the other
    /// two a fixed sentence.
    pub fn message(&self) -> (s: String)
        ensures
            match self {
                Error::Io(_) => "i/o error: "@.is_prefix_of(s@),
                Error::Exec(_) => s@ == "spawn error: "@ + spawn_failure(),
                Error::NoCapacity => s@ == "no capacity left"@,
                Error::TimerError => s@ == "error executing background timer"@,
            },
    {
        match self {
            Error::Io(e) => {
                let text = io_error_text(e);
                String::from_str("i/o error: ").concat(text.as_str())
            },
            Error::Exec(e) => {
                let text = spawn_error_text(e);
                String::from_str("spawn error: ").concat(text.as_str())
            },
            Error::NoCapacity => String::from_str("no capacity left"),
            Error::TimerError => String::from_str("error executing background timer"),
        }
    }
}

impl From<std::io::Error> for Error {
    fn from(e: std::io::Error) -> (r: Error) {
        Error::Io(e)
    }
}

impl FromSpecImpl<std::io::Error> for Error {
    open spec fn obeys_from_spec() -> bool {
        true
    }

    open spec fn from_spec(e: std::io::Error) -> Error {
        Error::Io(e)
    }
}

impl From<tokio_executor::SpawnError> for Error {
    fn from(e: tokio_executor::SpawnError) -> (r: Error) {
        Error::Exec(e)
    }
}

impl FromSpecImpl<tokio_executor::SpawnError> for Error {
    open spec fn obeys_from_spec() -> bool {
        true
    }

    open spec fn from_spec(e: tokio_executor::SpawnError) -> Error {
        Error::Exec(e)
    }
}

} // verus!
