//! The plain values in which the relay speaks HTTP: status codes, the reply
//! to an inbound request, and the two ways in which a route can fail.

use vstd::prelude::*;
use vstd::string::*;

verus! {

pub const OK: u16 = 200;

pub const CREATED: u16 = 201;

pub const BAD_REQUEST: u16 = 400;

pub const NOT_FOUND: u16 = 404;

pub const INTERNAL_SERVER_ERROR: u16 = 500;

/// The method of a request.
#[derive(Debug, Clone, PartialEq, Eq)]
pub enum Method {
    Options,
    Get,
    Post,
    Put,
    Delete,
    Head,
    Trace,
    Connect,
    Patch,
    /// A method by its name, for the methods that have no variant.
    Extension(String),
}

/// Why a route gave no reply of its own.
#[derive(Debug, Clone, Copy, PartialEq, Eq)]
pub enum RouteError {
    /// The request was at fault: its signature, its event header or its
    /// payload.
    Client,
    /// The relay was at fault: the job could not be queued.
    Server,
}

/// The reply to an inbound request.
#[derive(Debug)]
pub struct Response {
    pub status: u16,
    pub body: String,
}

impl Response {
    /// Whether this reply has status `status` and the text `body`.
    pub open spec fn is(self, status: u16, body: Seq<char>) -> bool {
        self.status == status && self.body@ == body
    }

    /// The empty reply: status 200 and no body.
    pub fn new() -> (response: Response)
        ensures
            response.is(OK, Seq::empty()),
    {
        Response { status: OK, body: String::new() }
    }

    pub fn with_status(self, status: u16) -> (response: Response)
        ensures
            response.is(status, self.body@),
    {
        Response { status, body: self.body }
    }

    pub fn with_body(self, body: &str) -> (response: Response)
        ensures
            response.is(self.status, body@),
    {
        Response { status: self.status, body: String::from_str(body) }
    }
}

/// The status that reports a failed route.
pub open spec fn error_status(error: RouteError) -> u16 {
    match error {
        RouteError::Client => BAD_REQUEST,
        RouteError::Server => INTERNAL_SERVER_ERROR,
    }
}

/// The reply that goes out for the outcome of a route: the route's own
/// reply, or an empty one with the status of its failure.
pub fn respond(outcome: Result<Response, RouteError>) -> (response: Response)
    ensures
        match outcome {
            Ok(r) => response == r,
            Err(e) => response.is(error_status(e), Seq::empty()),
        },
{
    match outcome {
        Ok(r) => r,
        Err(e) => {
            let status = match e {
                RouteError::Client => BAD_REQUEST,
                RouteError::Server => INTERNAL_SERVER_ERROR,
            };
            Response::new().with_status(status)
        },
    }
}

} // verus!
