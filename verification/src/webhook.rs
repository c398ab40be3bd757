//! The webhook route. A delivery is handled in three steps, each of which
//! needs what the step before it gave: the headers are judged before the
//! body is read, the body is gathered and authenticated before it is
//! decoded, and the decoded event is interpreted and answered.

use crate::command::{command, Cmd};
use crate::config::{Config, Inner};
use crate::event::{CommentEvent, EventView, XGithubEvent, XHubSignature};
use crate::http::{Response, RouteError, OK};
use crate::signature::{expected_signature, hmac_sha1, signature_matches};
use crate::work::{Job, Queue, TaskView};
use vstd::prelude::*;
use vstd::string::*;
use vstd::utf8::*;

verus! {

/// Whether a body with this signature header may be trusted, given the
/// configured secret: without a secret every body is, with one only a body
/// that carries the signature expected of it.
pub open spec fn authentic(
    secret: Option<Seq<char>>,
    body: Seq<u8>,
    signature: Option<Seq<char>>,
) -> bool {
    match secret {
        None => true,
        Some(key) => match signature {
            Some(sig) => encode_utf8(sig) == expected_signature(encode_utf8(key), body),
            None => false,
        },
    }
}

/// What the bot says in reply to a command from `login`.
pub open spec fn reply_text(cmd: Cmd, login: Seq<char>) -> Seq<char> {
    match cmd {
        Cmd::Ping => "@"@ + login + " pong :ping_pong:"@,
        Cmd::Deploy => "@"@ + login
            + " I'd love to... but I don't have that chip installed yet. :sob:"@,
        Cmd::Unrecognized => "@"@ + login + " I'm sorry, I didn't understand you. Bzzt. :zap:"@,
        Cmd::Ignore => Seq::empty(),
    }
}

/// The job that a command gives rise to: none when the comment is ignored,
/// else one comment on the issue that the event is about.
pub open spec fn reply(cmd: Cmd, event: EventView) -> Option<Seq<TaskView>> {
    match cmd {
        Cmd::Ignore => None,
        _ => Some(
            seq![
                TaskView::GithubComment {
                    repo: event.repository,
                    issue: event.issue,
                    body: reply_text(cmd, event.sender),
                },
            ],
        ),
    }
}

/// Whether `res` is an outcome that the route may have for a payload that
/// decoded to `decoded`, `None` standing for a payload that did not decode.
///
/// Such a payload is the client's fault. A comment that gives rise to no job
/// is answered with the empty reply. One that gives rise to a job is
/// answered with the empty reply when the queue took the job, and is a
/// server failure when it did not.
pub open spec fn concludes(
    config: Inner,
    decoded: Option<CommentEvent>,
    res: Result<Response, RouteError>,
) -> bool {
    match decoded {
        None => res == Err::<Response, RouteError>(RouteError::Client),
        Some(event) => {
            let cmd = command(config.name(), config.authorized(), event@);
            let fine = res matches Ok(r) && r.is(OK, Seq::empty());
            if reply(cmd, event@) is None {
                fine
            } else {
                fine || res == Err::<Response, RouteError>(RouteError::Server)
            }
        },
    }
}

/// Builds the job that answers `cmd`.
pub fn reply_job(cmd: Cmd, event: CommentEvent) -> (job: Option<Job>)
    ensures
        match job {
            Some(j) => reply(cmd, event@) == Some(j@),
            None => reply(cmd, event@) is None,
        },
{
    let tail = match cmd {
        Cmd::Ping => " pong :ping_pong:",
        Cmd::Deploy => " I'd love to... but I don't have that chip installed yet. :sob:",
        Cmd::Unrecognized => " I'm sorry, I didn't understand you. Bzzt. :zap:",
        Cmd::Ignore => {
            return None;
        },
    };
    let mut text = String::from_str("@");
    text.append(event.sender.login.as_str());
    text.append(tail);
    let mut job = Job::new();
    job.comment(event.repository.full_name, event.issue.number, text);
    assert(job@ =~= reply(cmd, event@)->0);
    Some(job)
}

/// The outcome of the route once the queue has answered: the empty reply
/// when it took the job, a server failure when it did not.
pub fn scheduled(answer: Result<(), Job>) -> (outcome: Result<Response, RouteError>)
    ensures
        match answer {
            Ok(_) => outcome matches Ok(r) && r.is(OK, Seq::empty()),
            Err(_) => outcome == Err::<Response, RouteError>(RouteError::Server),
        },
{
    match answer {
        Ok(_) => Ok(Response::new()),
        Err(_) => Err(RouteError::Server),
    }
}

/// The webhook route, set up for one request.
pub struct GithubHandler {
    config: Config,
    work: Queue,
}

/// A delivery whose headers were accepted and whose body is coming in.
pub struct Delivery {
    handler: GithubHandler,
    event: XGithubEvent,
    sig: Option<XHubSignature>,
    body: Vec<u8>,
}

/// A delivery whose body was authenticated and is still to be decoded.
pub struct Authenticated {
    handler: GithubHandler,
    event: XGithubEvent,
    body: Vec<u8>,
}

/// Starts the webhook route on a request, of which the two headers have been
/// read: the kind of event, if the header names a kind that the relay
/// handles, and the signature, if there is one.
pub fn handle(
    config: Config,
    work: Queue,
    event: Option<XGithubEvent>,
    sig: Option<XHubSignature>,
) -> (res: Result<Delivery, RouteError>)
    ensures
        match res {
            Ok(delivery) => event is Some && delivery.config() == config@ && delivery.signature()
                == sig && delivery.received() == Seq::<u8>::empty(),
            Err(e) => event is None && e == RouteError::Client,
        },
{
    GithubHandler::new(config, work).handle_request(event, sig)
}

impl GithubHandler {
    /// The configuration that this handler works under.
    pub closed spec fn config(&self) -> Inner {
        self.config@
    }

    pub fn new(config: Config, work: Queue) -> (handler: GithubHandler)
        ensures
            handler.config() == config@,
    {
        GithubHandler { config, work }
    }

    /// Judges the headers, before any of the body is read: a request
    /// without a known kind of event is turned away.
    pub fn handle_request(self, event: Option<XGithubEvent>, sig: Option<XHubSignature>) -> (res:
        Result<Delivery, RouteError>)
        ensures
            match res {
                Ok(delivery) => event is Some && delivery.config() == self.config()
                    && delivery.signature() == sig && delivery.received() == Seq::<u8>::empty(),
                Err(e) => event is None && e == RouteError::Client,
            },
    {
        match event {
            Some(event) => Ok(Delivery { handler: self, event, sig, body: Vec::new() }),
            None => Err(RouteError::Client),
        }
    }

    /// Checks `sig` against `body` under the configured secret. Without a
    /// secret there is nothing to check, and the body is accepted.
    pub fn verify_signature(&self, body: &[u8], sig: &XHubSignature) -> (res: Result<
        (),
        RouteError,
    >)
        ensures
            res is Ok <==> authentic(self.config().webhook_secret(), body@, Some(sig.0@)),
            res matches Err(e) ==> e == RouteError::Client,
    {
        match self.config.github_webhook_secret() {
            Some(secret) => {
                let digest = hmac_sha1(secret.as_bytes(), body);
                if signature_matches(&digest, sig.0.as_str().as_bytes()) {
                    Ok(())
                } else {
                    Err(RouteError::Client)
                }
            },
            None => Ok(()),
        }
    }

    /// Interprets the decoded event, `None` standing for a payload that
    /// could not be decoded, and queues the reply if one is due: the job
    /// that `reply_job` builds is handed to the queue, and `scheduled` turns
    /// the queue's answer into the outcome. Whether the queue takes the job
    /// is not for this route to say.
    pub fn handle_issue_comment(self, decoded: Option<CommentEvent>) -> (res: Result<
        Response,
        RouteError,
    >)
        ensures
            concludes(self.config(), decoded, res),
    {
        let event = match decoded {
            Some(event) => event,
            None => {
                return Err(RouteError::Client);
            },
        };
        let cmd = Cmd::parse(&self.config, &event);
        match reply_job(cmd, event) {
            Some(job) => scheduled(self.work.schedule(job)),
            None => Ok(Response::new()),
        }
    }
}

impl Delivery {
    /// The configuration that the delivery is handled under.
    pub closed spec fn config(&self) -> Inner {
        self.handler.config()
    }

    /// The signature header that came with the delivery.
    pub closed spec fn signature(&self) -> Option<XHubSignature> {
        self.sig
    }

    /// The part of the body that has come in.
    pub closed spec fn received(&self) -> Seq<u8> {
        self.body@
    }

    /// Whether the body that has come in would be let through, if this is
    /// all of it.
    pub open spec fn admitted(&self) -> bool {
        authentic(
            self.config().webhook_secret(),
            self.received(),
            match self.signature() {
                Some(sig) => Some(sig.0@),
                None => None,
            },
        )
    }

    /// Takes the next chunk of the body: it goes behind what came before.
    pub fn chunk(&mut self, chunk: &[u8])
        ensures
            final(self).received() == old(self).received() + chunk@,
            final(self).config() == old(self).config(),
            final(self).signature() == old(self).signature(),
    {
        self.body.extend_from_slice(chunk);
        assert(self.body@ =~= old(self).body@ + chunk@);
    }

    /// Ends the body, `complete` telling whether all of it was read, and
    /// authenticates it. A body that broke off is the client's fault, and so
    /// is one that is not authentic; only an authentic body is handed on.
    pub fn end(self, complete: bool) -> (res: Result<Authenticated, RouteError>)
        ensures
            match res {
                Ok(authenticated) => complete && self.admitted() && authenticated.payload_bytes()
                    == self.received() && authenticated.config() == self.config(),
                Err(e) => e == RouteError::Client && !(complete && self.admitted()),
            },
    {
        if !complete {
            return Err(RouteError::Client);
        }
        if self.handler.config.github_webhook_secret().is_some() {
            match &self.sig {
                Some(sig) => {
                    match self.handler.verify_signature(self.body.as_slice(), sig) {
                        Ok(_) => {},
                        Err(e) => {
                            return Err(e);
                        },
                    }
                },
                None => {
                    return Err(RouteError::Client);
                },
            }
        }
        Ok(Authenticated { handler: self.handler, event: self.event, body: self.body })
    }
}

impl Authenticated {
    /// The configuration that the delivery is handled under.
    pub closed spec fn config(&self) -> Inner {
        self.handler.config()
    }

    /// The authenticated body.
    pub closed spec fn payload_bytes(&self) -> Seq<u8> {
        self.body@
    }

    /// The bytes to decode.
    pub fn payload(&self) -> (bytes: &[u8])
        ensures
            bytes@ == self.payload_bytes(),
    {
        self.body.as_slice()
    }

    /// Takes the event that the payload decodes to, `None` standing for a
    /// payload that does not decode, and finishes the route.
    pub fn decoded(self, event: Option<CommentEvent>) -> (res: Result<Response, RouteError>)
        ensures
            concludes(self.config(), event, res),
    {
        match self.event {
            XGithubEvent::IssueComment => self.handler.handle_issue_comment(event),
        }
    }
}

} // verus!
