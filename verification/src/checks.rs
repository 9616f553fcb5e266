pub mod health;
pub mod readiness;

use crate::utilities::text::{contains, occurs_in};
use vstd::prelude::*;

verus! {

/// The status codes that the checks answer with.
#[derive(Debug, Clone, Copy, PartialEq, Eq, Structural)]
pub enum StatusCode {
    Okay,
    NotFound,
    InternalServerError,
}

impl StatusCode {
    /// The number of the status code.
    pub open spec fn number(self) -> u16 {
        match self {
            StatusCode::Okay => 200u16,
            StatusCode::NotFound => 404u16,
            StatusCode::InternalServerError => 500u16,
        }
    }

    /// Returns the number of the status code.
    pub fn as_u16(&self) -> (result: u16)
        ensures
            result == self.number(),
    {
        match self {
            StatusCode::Okay => 200,
            StatusCode::NotFound => 404,
            StatusCode::InternalServerError => 500,
        }
    }
}

/// The mathematical model of [`Response`].
pub struct ResponseView {
    pub status: StatusCode,
    pub body: Seq<char>,
}

/// What a check answers: a status code and a body.
#[derive(Debug, PartialEq)]
pub struct Response {
    pub status: StatusCode,
    pub body: String,
}

impl View for Response {
    type V = ResponseView;

    open spec fn view(&self) -> ResponseView {
        ResponseView { status: self.status, body: self.body@ }
    }
}

/// The answer to a request for `uri`, where `socket_exists` says whether
/// the service's socket is there. A path with `ready` in it asks for the
/// readiness check, any other with `health` in it for the liveness check,
/// and nothing is found under the rest.
pub open spec fn route(uri: Seq<char>, socket_exists: bool) -> ResponseView {
    if occurs_in(uri, "ready"@) {
        readiness::readiness(socket_exists)
    } else if occurs_in(uri, "health"@) {
        health::health()
    } else {
        ResponseView { status: StatusCode::NotFound, body: "Not found"@ }
    }
}

/// Answers a request for `uri`: see [`route`].
pub fn checks(uri: &str, socket_exists: bool) -> (result: Response)
    ensures
        result@ == route(uri@, socket_exists),
{
    if contains(uri, "ready") {
        readiness::readiness_check(socket_exists)
    } else if contains(uri, "health") {
        health::health_check()
    } else {
        Response { status: StatusCode::NotFound, body: "Not found".to_owned() }
    }
}

} // verus!
