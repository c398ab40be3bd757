//! The HTTP surface: which route a request takes, and the route that shows
//! that the relay is up.

use crate::config::{Config, Inner};
use crate::http::{Method, Response, NOT_FOUND, OK};
use crate::text::same_text;
use vstd::prelude::*;
use vstd::string::*;

verus! {

/// Where a request goes.
#[derive(Debug, Clone, Copy, PartialEq, Eq)]
pub enum Route {
    /// `GET /`: the greeting.
    Ping,
    /// `POST /github`: the webhook. It exists only while the bot has a name.
    Github,
    /// Everything else.
    NotFound,
}

/// The route of a request for `path` by `method`, under `config`.
pub open spec fn routed(config: Inner, method: Method, path: Seq<char>) -> Route {
    if method is Get && path == "/"@ {
        Route::Ping
    } else if method is Post && path == "/github"@ && config.name().len() > 0 {
        Route::Github
    } else {
        Route::NotFound
    }
}

/// Picks the route of a request.
pub fn route(config: &Config, method: &Method, path: &str) -> (to: Route)
    ensures
        to == routed(config@, *method, path@),
{
    match method {
        Method::Get => {
            if same_text(path, "/") {
                Route::Ping
            } else {
                Route::NotFound
            }
        },
        Method::Post => {
            if same_text(path, "/github") && !config.github_name().is_empty() {
                Route::Github
            } else {
                Route::NotFound
            }
        },
        _ => Route::NotFound,
    }
}

/// The greeting.
pub fn ping() -> (response: Response)
    ensures
        response.is(OK, "Beep boop."@),
{
    Response::new().with_body("Beep boop.")
}

/// The reply to a request that has no route.
pub fn not_found() -> (response: Response)
    ensures
        response.is(NOT_FOUND, Seq::empty()),
{
    Response::new().with_status(NOT_FOUND)
}

} // verus!
