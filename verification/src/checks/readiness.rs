use crate::checks::{Response, ResponseView, StatusCode};
use vstd::prelude::*;

verus! {

/// The answer of the readiness check: the service is ready exactly where
/// its socket is there.
pub open spec fn readiness(socket_exists: bool) -> ResponseView {
    ResponseView {
        status: if socket_exists {
            StatusCode::Okay
        } else {
            StatusCode::InternalServerError
        },
        body: "Not ready"@,
    }
}

/// Answers the readiness check, where `socket_exists` says whether the
/// service's socket is there.
pub fn readiness_check(socket_exists: bool) -> (result: Response)
    ensures
        result@ == readiness(socket_exists),
{
    let status = if socket_exists {
        StatusCode::Okay
    } else {
        StatusCode::InternalServerError
    };
    Response { status, body: "Not ready".to_owned() }
}

} // verus!
