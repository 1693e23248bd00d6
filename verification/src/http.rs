//! The HTTP side of a verb operation, described as plain values: the request
//! to perform, and the mapping from the exchange's outcome to the
//! operation's result.  Performing the exchange is the caller's business.

use vstd::prelude::*;
use crate::client::FirebaseError;

verus! {

/// The HTTP method of a request.
#[derive(Clone, Copy, Debug, PartialEq, Eq, Structural)]
pub enum HttpMethod {
    Get,
    Put,
    Post,
    Delete,
}

/// One HTTP exchange to perform: a method, the composed URL, and an optional
/// request body.
pub struct HttpRequest {
    pub method: HttpMethod,
    pub url: String,
    pub body: Option<String>,
}

/// How a read exchange ended: it never completed, it completed but the body
/// could not be decoded as text, or it delivered a body.
pub enum ReadOutcome {
    TransportFailed,
    BodyUndecodable,
    BodyText(String),
}

/// The result of the read operation for each way its exchange can end: a
/// transport failure surfaces as `TransportError`, an undecodable body as
/// `BodyReadError`, and a delivered body is returned unchanged.
pub fn read_response(outcome: ReadOutcome) -> (r: Result<String, FirebaseError>)
    ensures
        outcome is TransportFailed ==> r == Err::<String, FirebaseError>(
            FirebaseError::TransportError,
        ),
        outcome is BodyUndecodable ==> r == Err::<String, FirebaseError>(
            FirebaseError::BodyReadError,
        ),
        outcome matches ReadOutcome::BodyText(s) ==> (r matches Ok(b) && b@ == s@),
{
    match outcome {
        ReadOutcome::TransportFailed => Err(FirebaseError::TransportError),
        ReadOutcome::BodyUndecodable => Err(FirebaseError::BodyReadError),
        ReadOutcome::BodyText(s) => Ok(s),
    }
}

/// The result of a write operation (replace, create-child, merge-update,
/// remove) for each way its exchange can end: success exactly when the
/// exchange completed, a transport failure surfaces as `TransportError`.
pub fn write_response(completed: bool) -> (r: Result<(), FirebaseError>)
    ensures
        completed ==> r == Ok::<(), FirebaseError>(()),
        !completed ==> r == Err::<(), FirebaseError>(FirebaseError::TransportError),
{
    if completed {
        Ok(())
    } else {
        Err(FirebaseError::TransportError)
    }
}

} // verus!
