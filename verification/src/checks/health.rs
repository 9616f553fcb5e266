use crate::checks::{Response, ResponseView, StatusCode};
use vstd::prelude::*;

verus! {

/// The answer of the liveness check: the process is alive whenever it answers.
pub open spec fn health() -> ResponseView {
    ResponseView { status: StatusCode::Okay, body: "OK"@ }
}

/// Answers the liveness check.
pub fn health_check() -> (result: Response)
    ensures
        result@ == health(),
{
    Response { status: StatusCode::Okay, body: "OK".to_owned() }
}

} // verus!
