//! The deadline-bound remote fetch, seen from the round's logic: the
//! transport reports one of four outcomes, and this module decides which
//! error each failure maps to and hands the body on when the status is 200.

use vstd::prelude::*;

use crate::Error;

verus! {

/// How one remote request ended. The transport beneath it (the part that
/// sends the request and waits up to the deadline) produces this value.
pub enum FetchOutcome {
    /// Sending the request out failed.
    SendFailed,
    /// The wait for the response reached the configured deadline.
    TimedOut,
    /// The transport reported an error after the wait.
    TransportFailed,
    /// A response arrived, with its status code and body.
    Completed { code: u16, body: Vec<u8> },
}

/// What the fetch stage yields for each outcome: the body on status 200,
/// the outcome's own error kind otherwise.
pub open spec fn fetch_spec(outcome: FetchOutcome) -> Result<Seq<u8>, Error> {
    match outcome {
        FetchOutcome::SendFailed => Err(Error::PendingError),
        FetchOutcome::TimedOut => Err(Error::DoubleResultOneError),
        FetchOutcome::TransportFailed => Err(Error::DoubleResultTwoError),
        FetchOutcome::Completed { code, body } => if code != 200 {
            Err(Error::WrongRespondCode)
        } else {
            Ok(body@)
        },
    }
}

/// Turns the outcome of one remote request into the response bytes, or into
/// the error of the stage that failed. A response with a status other than
/// 200 is rejected with `WrongRespondCode`.
pub fn fetch_from_remote(outcome: FetchOutcome) -> (r: Result<Vec<u8>, Error>)
    ensures
        r matches Ok(b) ==> fetch_spec(outcome) == Ok::<Seq<u8>, Error>(b@),
        r matches Err(e) ==> fetch_spec(outcome) == Err::<Seq<u8>, Error>(e),
{
    match outcome {
        FetchOutcome::SendFailed => Err(Error::PendingError),
        FetchOutcome::TimedOut => Err(Error::DoubleResultOneError),
        FetchOutcome::TransportFailed => Err(Error::DoubleResultTwoError),
        FetchOutcome::Completed { code, body } => {
            if code != 200 {
                Err(Error::WrongRespondCode)
            } else {
                Ok(body)
            }
        },
    }
}

} // verus!
