//! What a webhook delivery carries: the two headers that the relay reads and
//! the decoded issue-comment event.

use crate::text::holds_at;
use vstd::prelude::*;
use vstd::string::*;
use vstd::utf8::*;

verus! {

/// The value of the `X-Github-Event` header; the variants are the kinds of
/// event that the relay handles.
#[derive(Debug, Clone, Copy, PartialEq, Eq)]
pub enum XGithubEvent {
    IssueComment,
}

/// The header text that announces an issue-comment event.
pub open spec fn issue_comment_kind() -> Seq<u8> {
    encode_utf8("issue_comment"@)
}

impl XGithubEvent {
    pub fn header_name() -> (name: &'static str)
        ensures
            name@ == "X-Github-Event"@,
    {
        "X-Github-Event"
    }

    /// Reads the header from its single raw line; `None` stands for a header
    /// that is absent or spread over several lines.
    pub fn parse_header(line: Option<&[u8]>) -> (event: Option<XGithubEvent>)
        ensures
            event is Some <==> (line matches Some(l) && l@ == issue_comment_kind()),
            event matches Some(e) ==> e == XGithubEvent::IssueComment,
    {
        match line {
            Some(l) => {
                let kind = "issue_comment".as_bytes();
                assert(l@.len() == kind@.len() ==> l@.subrange(0, kind@.len() as int) =~= l@);
                if l.len() == kind.len() && holds_at(l, 0, kind) {
                    Some(XGithubEvent::IssueComment)
                } else {
                    None
                }
            },
            None => None,
        }
    }

    /// The text of the header for this kind of event.
    pub fn fmt_header(&self) -> (text: &'static str)
        ensures
            text@ == "issue_comment"@,
    {
        "issue_comment"
    }
}

/// Reads `bytes` as text with `std::str::from_utf8`. Taken on trust, as the
/// documentation of the call has it: the bytes are text if and only if they
/// are valid UTF-8, and the text then consists of these very bytes.
#[verifier::external_body]
fn utf8_text(bytes: &[u8]) -> (text: Option<&str>)
    ensures
        text is Some <==> valid_utf8(bytes@),
        text matches Some(t) ==> t.spec_bytes() == bytes@,
{
    std::str::from_utf8(bytes).ok()
}

/// The value of the `X-Hub-Signature` header.
#[derive(Debug, Clone)]
pub struct XHubSignature(pub String);

impl XHubSignature {
    pub fn header_name() -> (name: &'static str)
        ensures
            name@ == "X-Hub-Signature"@,
    {
        "X-Hub-Signature"
    }

    /// Reads the header from its single raw line; `None` stands for a header
    /// that is absent or spread over several lines. The line must be text.
    pub fn parse_header(line: Option<&[u8]>) -> (signature: Option<XHubSignature>)
        ensures
            signature is Some <==> (line matches Some(l) && valid_utf8(l@)),
            signature matches Some(s) ==> line matches Some(l) && encode_utf8(s.0@) == l@,
    {
        match line {
            Some(l) => match utf8_text(l) {
                Some(text) => Some(XHubSignature(String::from_str(text))),
                None => None,
            },
            None => None,
        }
    }

    /// The text of the header.
    pub fn fmt_header(&self) -> (text: &str)
        ensures
            text@ == self.0@,
    {
        self.0.as_str()
    }
}

/// What happened to the comment.
#[derive(Debug, Clone, Copy, PartialEq, Eq)]
pub enum CommentAction {
    Created,
    Edited,
    Deleted,
}

#[derive(Debug)]
pub struct Issue {
    pub number: u64,
    pub title: String,
}

#[derive(Debug)]
pub struct User {
    pub login: String,
}

#[derive(Debug)]
pub struct Comment {
    pub body: String,
    pub user: User,
}

#[derive(Debug)]
pub struct Repository {
    pub full_name: String,
}

/// One decoded notification about a comment on an issue or pull request.
#[derive(Debug)]
pub struct CommentEvent {
    pub action: CommentAction,
    pub comment: Comment,
    pub issue: Issue,
    pub repository: Repository,
    pub sender: User,
}

/// The event as the relay reasons about it.
pub struct EventView {
    pub action: CommentAction,
    pub body: Seq<char>,
    pub author: Seq<char>,
    pub issue: u64,
    pub repository: Seq<char>,
    pub sender: Seq<char>,
}

impl View for CommentEvent {
    type V = EventView;

    open spec fn view(&self) -> EventView {
        EventView {
            action: self.action,
            body: self.comment.body@,
            author: self.comment.user.login@,
            issue: self.issue.number,
            repository: self.repository.full_name@,
            sender: self.sender.login@,
        }
    }
}

} // verus!
