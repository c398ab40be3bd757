//! The outbound client: the request that posts a comment on the hosting
//! platform, and the reading of the platform's answer. Sending the request
//! is left to whoever holds the connection.

use crate::config::{Config, Inner};
use crate::http::{Method, CREATED};
use hyper::error::UriError;
use vstd::prelude::*;
use vstd::string::*;

verus! {

/// Why posting a comment failed.
#[derive(Debug)]
pub enum ClientError {
    /// The request could not be made or did not get through.
    Http(hyper::Error),
    /// The platform answered with a status other than "201 Created".
    Api,
}

impl From<hyper::Error> for ClientError {
    fn from(e: hyper::Error) -> (error: ClientError) {
        ClientError::Http(e)
    }
}

impl vstd::std_specs::convert::FromSpecImpl<hyper::Error> for ClientError {
    open spec fn obeys_from_spec() -> bool {
        true
    }

    open spec fn from_spec(e: hyper::Error) -> ClientError {
        ClientError::Http(e)
    }
}

/// An outbound request, ready to be sent.
#[derive(Debug)]
pub struct Request {
    pub method: Method,
    pub uri: String,
    pub user_agent: String,
    /// The bearer token of the `Authorization` header, if one is sent.
    pub bearer: Option<String>,
    pub body: Option<String>,
}

/// A request as the relay reasons about it.
pub struct RequestView {
    pub method: Method,
    pub uri: Seq<char>,
    pub user_agent: Seq<char>,
    pub bearer: Option<Seq<char>>,
    pub body: Option<Seq<char>>,
}

impl View for Request {
    type V = RequestView;

    open spec fn view(&self) -> RequestView {
        RequestView {
            method: self.method,
            uri: self.uri@,
            user_agent: self.user_agent@,
            bearer: match self.bearer {
                Some(t) => Some(t@),
                None => None,
            },
            body: match self.body {
                Some(b) => Some(b@),
                None => None,
            },
        }
    }
}

/// The character for a decimal digit.
pub open spec fn digit(d: int) -> char {
    seq!['0', '1', '2', '3', '4', '5', '6', '7', '8', '9'][d]
}

/// A number in decimal, without leading zeros.
pub open spec fn decimal(n: nat) -> Seq<char>
    decreases n,
{
    if n < 10 {
        seq![digit(n as int)]
    } else {
        decimal(n / 10) + seq![digit((n % 10) as int)]
    }
}

/// The path of the endpoint that creates a comment on an issue.
pub open spec fn comment_path(repo: Seq<char>, issue: u64) -> Seq<char> {
    "/repos/"@ + repo + "/issues/"@ + decimal(issue as nat) + "/comments"@
}

/// The JSON string literal for `text`, quotes and escapes included.
pub uninterp spec fn json_string(text: Seq<char>) -> Seq<char>;

/// The JSON object that carries the text of a comment, given the text as a
/// JSON string literal.
pub open spec fn comment_payload(literal: Seq<char>) -> Seq<char> {
    "{\"body\":"@ + literal + "}"@
}

/// Whether `text` is a URI that the transport accepts.
pub uninterp spec fn uri_parses(text: Seq<char>) -> bool;

/// The request that the client makes for `path` under `config`, before any
/// body is set.
pub open spec fn drafted(config: Inner, method: Method, path: Seq<char>) -> RequestView {
    RequestView {
        method,
        uri: config.api() + path,
        user_agent: "fxabot/0"@,
        bearer: config.token(),
        body: None,
    }
}

/// The request that posts `body` as a comment on an issue.
pub open spec fn comment_request(
    config: Inner,
    repo: Seq<char>,
    issue: u64,
    body: Seq<char>,
) -> RequestView {
    RequestView {
        body: Some(comment_payload(json_string(body))),
        ..drafted(config, Method::Post, comment_path(repo, issue))
    }
}

/// Writes `text` as a JSON string literal, by the `Display` of
/// `serde_json::Value::String`. Taken on trust: the result is the compact JSON
/// encoding of the string, which depends on the text alone.
#[verifier::external_body]
fn to_json_string(text: &str) -> (literal: String)
    ensures
        literal@ == json_string(text@),
{
    serde_json::Value::String(text.to_owned()).to_string()
}

/// Parses `text` with `<hyper::Uri as FromStr>::from_str` and keeps the error,
/// if there is one. Taken on trust: whether the text parses depends on the
/// text alone.
#[verifier::external_body]
fn check_uri(text: &str) -> (res: Result<(), UriError>)
    ensures
        res is Ok <==> uri_parses(text@),
{
    match text.parse::<hyper::Uri>() {
        Ok(_) => Ok(()),
        Err(e) => Err(e),
    }
}

/// Wraps the error as `hyper::Error::Uri`.
#[verifier::external_body]
fn uri_error(e: UriError) -> hyper::Error {
    hyper::Error::Uri(e)
}

fn digit_text(d: u64) -> (text: &'static str)
    requires
        d < 10,
    ensures
        text@ == seq![digit(d as int)],
{
    proof {
        reveal_strlit("0");
        reveal_strlit("1");
        reveal_strlit("2");
        reveal_strlit("3");
        reveal_strlit("4");
        reveal_strlit("5");
        reveal_strlit("6");
        reveal_strlit("7");
        reveal_strlit("8");
        reveal_strlit("9");
    }
    let text = if d == 0 {
        "0"
    } else if d == 1 {
        "1"
    } else if d == 2 {
        "2"
    } else if d == 3 {
        "3"
    } else if d == 4 {
        "4"
    } else if d == 5 {
        "5"
    } else if d == 6 {
        "6"
    } else if d == 7 {
        "7"
    } else if d == 8 {
        "8"
    } else {
        "9"
    };
    assert(text@ =~= seq![digit(d as int)]);
    text
}

/// Writes `n` in decimal.
pub fn decimal_text(n: u64) -> (text: String)
    ensures
        text@ == decimal(n as nat),
    decreases n,
{
    if n < 10 {
        String::from_str(digit_text(n))
    } else {
        let mut text = decimal_text(n / 10);
        text.append(digit_text(n % 10));
        text
    }
}

/// Writes the path of the endpoint that creates a comment on an issue.
pub fn comment_path_text(repo: &str, issue: u64) -> (path: String)
    ensures
        path@ == comment_path(repo@, issue),
{
    let mut path = String::from_str("/repos/");
    path.append(repo);
    path.append("/issues/");
    path.append(decimal_text(issue).as_str());
    path.append("/comments");
    path
}

/// Wraps the JSON string literal of a comment's text in the object that the
/// platform expects.
pub fn comment_payload_text(literal: &str) -> (payload: String)
    ensures
        payload@ == comment_payload(literal@),
{
    let mut payload = String::from_str("{\"body\":");
    payload.append(literal);
    payload.append("}");
    payload
}

/// Reads the platform's answer to a comment by its status: only
/// "201 Created" means that the comment was posted.
pub fn comment_outcome(status: u16) -> (res: Result<(), ClientError>)
    ensures
        res is Ok <==> status == CREATED,
        res matches Err(e) ==> e is Api,
{
    if status == CREATED {
        Ok(())
    } else {
        Err(ClientError::Api)
    }
}

/// The request whose URI was put to the transport, if the URI parsed, and
/// else the error of the parsing.
pub fn parsed(request: Request, parse: Result<(), UriError>) -> (res: Result<Request, UriError>)
    ensures
        match parse {
            Ok(_) => res == Ok::<Request, UriError>(request),
            Err(e) => res == Err::<Request, UriError>(e),
        },
{
    match parse {
        Ok(_) => Ok(request),
        Err(e) => Err(e),
    }
}

/// Makes of a request the request that posts a comment, given the text of
/// the comment as a JSON string literal. A request that could not be made
/// for its URI stays a failure, now as `ClientError::Http`.
pub fn posting(drafted: Result<Request, UriError>, literal: &str) -> (res: Result<
    Request,
    ClientError,
>)
    ensures
        match drafted {
            Ok(request) => res matches Ok(r) && r@ == (RequestView {
                body: Some(comment_payload(literal@)),
                ..request@
            }),
            Err(_) => res matches Err(e) && e is Http,
        },
{
    match drafted {
        Ok(request) => {
            let mut request = request;
            request.body = Some(comment_payload_text(literal));
            Ok(request)
        },
        Err(e) => Err(ClientError::Http(uri_error(e))),
    }
}

/// The outbound client. Its configuration does not change, so it may be
/// shared by the jobs that are in flight.
#[derive(Debug, Clone)]
pub struct Client {
    config: Config,
}

impl Client {
    /// The configuration that this client works under.
    pub closed spec fn config(&self) -> Inner {
        self.config@
    }

    pub fn new(config: Config) -> (client: Client)
        ensures
            client.config() == config@,
    {
        Client { config }
    }

    /// The request for `path`, whether or not its URI is one that the
    /// transport accepts: the configured API and the path, the bot's user
    /// agent, and the bearer token if one is configured.
    pub fn draft(&self, method: Method, path: &str) -> (request: Request)
        ensures
            request@ == drafted(self.config(), method, path@),
    {
        let mut uri = String::from_str(self.config.github_api());
        uri.append(path);
        let bearer = match self.config.github_token() {
            Some(token) => Some(String::from_str(token)),
            None => None,
        };
        Request { method, uri, user_agent: String::from_str("fxabot/0"), bearer, body: None }
    }

    /// The request for `path`, if its URI is one that the transport accepts.
    pub fn request(&self, method: Method, path: &str) -> (res: Result<Request, UriError>)
        ensures
            res is Ok <==> uri_parses(self.config().api() + path@),
            res matches Ok(request) ==> request@ == drafted(self.config(), method, path@),
    {
        let request = self.draft(method, path);
        let parse = check_uri(request.uri.as_str());
        parsed(request, parse)
    }

    /// The request that posts `body` as a comment on issue `issue` of
    /// repository `repo`. It fails, with `ClientError::Http`, only when the URI of
    /// the endpoint is not one that the transport accepts.
    pub fn github_comment(&self, repo: String, issue: u64, body: String) -> (res: Result<
        Request,
        ClientError,
    >)
        ensures
            res is Ok <==> uri_parses(self.config().api() + comment_path(repo@, issue)),
            res matches Ok(request) ==> request@ == comment_request(
                self.config(),
                repo@,
                issue,
                body@,
            ),
            res matches Err(e) ==> e is Http,
    {
        let path = comment_path_text(repo.as_str(), issue);
        let drafted = self.request(Method::Post, path.as_str());
        let literal = to_json_string(body.as_str());
        posting(drafted, literal.as_str())
    }
}

} // verus!
