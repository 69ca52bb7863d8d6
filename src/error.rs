//! How a call can fail, and which replies count as the service's own errors.
use vstd::prelude::*;

verus! {

/// Why a call produced no response model.
#[derive(Debug, Clone)]
pub enum SdkError {
    /// The call could not complete: connection, TLS or DNS failure, or the
    /// timeout ran out.
    Transport(String),
    /// The body is not JSON of the expected shape.
    Decode(String),
    /// The service answered with a status outside the success range; `body`
    /// is its error payload, as sent.
    Remote { status: u16, body: String },
}

/// A status in the 2xx range.
pub open spec fn is_success_status(status: u16) -> bool {
    200 <= status < 300
}

/// Sorts a reply by its status: the body of a success reply goes on to be
/// decoded, any other reply is the service's error.
pub fn check_reply(status: u16, body: String) -> (r: Result<String, SdkError>)
    ensures
        is_success_status(status) ==> (r matches Ok(b) && b@ == body@),
        !is_success_status(status) ==> (r matches Err(SdkError::Remote { status: s, body: b }) && s
            == status && b@ == body@),
{
    if 200 <= status && status < 300 {
        Ok(body)
    } else {
        Err(SdkError::Remote { status, body })
    }
}

} // verus!
