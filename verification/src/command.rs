//! The command interpreter: which command, if any, a comment gives the bot.
//!
//! A comment addresses the bot on a *mention line*: a line that starts with
//! `@`, the bot's name and a space, and goes on after that. Only the first
//! such line counts, only when its sender is authorized, and the word after
//! the mention names the command.

use crate::config::Config;
use crate::event::{CommentAction, CommentEvent, EventView};
use crate::text::{find_byte, first_index, holds_at, split};
use crate::text::{lemma_ascii_bytes, lemma_first_index, lemma_first_index_found};
use crate::text::{lemma_split_head, lemma_split_second};
use crate::text::{AT_SIGN, NEWLINE, SPACE};
use vstd::prelude::*;
use vstd::string::*;
use vstd::utf8::*;

verus! {

/// What a comment asks of the bot.
#[derive(Debug, Clone, Copy, PartialEq, Eq)]
pub enum Cmd {
    Ping,
    Deploy,
    /// An authorized sender addressed the bot with a word that it does not know.
    Unrecognized,
    /// Nothing to do, and nothing to say.
    Ignore,
}

/// The word that asks for a ping.
pub open spec fn ping_word() -> Seq<u8> {
    encode_utf8("ping"@)
}

/// The word that asks for a deployment.
pub open spec fn deploy_word() -> Seq<u8> {
    encode_utf8("deploy"@)
}

/// Whether `line` addresses `name`: it is longer than `@`, the name and a
/// space together, and starts with them.
pub open spec fn is_mention(line: Seq<u8>, name: Seq<u8>) -> bool {
    let n = name.len() as int;
    &&& line.len() > 1 + n + 1
    &&& line[0] == AT_SIGN
    &&& line.subrange(1, 1 + n) == name
    &&& line[1 + n] == SPACE
}

/// The first of `lines` that addresses `name`.
pub open spec fn first_mention(lines: Seq<Seq<u8>>, name: Seq<u8>) -> Option<Seq<u8>>
    decreases lines.len(),
{
    if lines.len() == 0 {
        None
    } else if is_mention(lines[0], name) {
        Some(lines[0])
    } else {
        first_mention(lines.drop_first(), name)
    }
}

/// The mention line of a comment body, if it has one.
pub open spec fn mention_line(body: Seq<u8>, name: Seq<u8>) -> Option<Seq<u8>> {
    first_mention(split(body, NEWLINE), name)
}

/// The command that a word names.
pub open spec fn word_command(word: Seq<u8>) -> Cmd {
    if word == ping_word() {
        Cmd::Ping
    } else if word == deploy_word() {
        Cmd::Deploy
    } else {
        Cmd::Unrecognized
    }
}

/// The command that a mention line gives: its second word decides, the
/// words being what stands between the spaces.
pub open spec fn line_command(line: Seq<u8>) -> Cmd {
    let words = split(line, SPACE);
    if words.len() < 2 {
        Cmd::Unrecognized
    } else {
        word_command(words[1])
    }
}

/// How a line that addresses `name` starts: `@`, the name, a space.
pub open spec fn mention(name: Seq<u8>) -> Seq<u8> {
    seq![AT_SIGN] + name + seq![SPACE]
}

/// What follows the mention on a line that addresses a name of `n` bytes, up
/// to the next space or the end of the line.
pub open spec fn word_after_mention(line: Seq<u8>, n: nat) -> Seq<u8> {
    let rest = line.skip(n as int + 2);
    rest.take(first_index(rest, SPACE))
}

/// The command that an event gives a bot called `name` that obeys the
/// senders in `authorized`.
pub open spec fn command(name: Seq<char>, authorized: Seq<Seq<char>>, event: EventView) -> Cmd {
    if event.action != CommentAction::Created || name.len() == 0 {
        Cmd::Ignore
    } else {
        match mention_line(encode_utf8(event.body), encode_utf8(name)) {
            Some(line) => if authorized.contains(event.sender) {
                line_command(line)
            } else {
                Cmd::Ignore
            },
            None => Cmd::Ignore,
        }
    }
}

/// The two words that the bot knows, byte by byte.
pub proof fn lemma_known_words()
    ensures
        ping_word() == seq![112u8, 105, 110, 103],
        deploy_word() == seq![100u8, 101, 112, 108, 111, 121],
{
    reveal_strlit("ping");
    reveal_strlit("deploy");
    lemma_ascii_bytes("ping"@, seq![112u8, 105, 110, 103]);
    lemma_ascii_bytes("deploy"@, seq![100u8, 101, 112, 108, 111, 121]);
}

/// What `first_mention` finds: nothing when no line addresses `name`, and
/// else a line that does and has no such line before it.
pub proof fn lemma_first_mention(lines: Seq<Seq<u8>>, name: Seq<u8>)
    ensures
        match first_mention(lines, name) {
            None => forall|k: int| 0 <= k < lines.len() ==> !is_mention(#[trigger] lines[k], name),
            Some(line) => exists|k: int|
                0 <= k < lines.len() && #[trigger] lines[k] == line && is_mention(line, name)
                    && forall|j: int| 0 <= j < k ==> !is_mention(#[trigger] lines[j], name),
        },
    decreases lines.len(),
{
    if lines.len() > 0 && !is_mention(lines[0], name) {
        let rest = lines.drop_first();
        lemma_first_mention(rest, name);
        match first_mention(rest, name) {
            None => {
                assert forall|k: int| 0 <= k < lines.len() implies !is_mention(
                    #[trigger] lines[k],
                    name,
                ) by {
                    if k > 0 {
                        assert(lines[k] == rest[k - 1]);
                    }
                }
            },
            Some(line) => {
                let k = choose|k: int|
                    0 <= k < rest.len() && #[trigger] rest[k] == line && is_mention(line, name)
                        && forall|j: int| 0 <= j < k ==> !is_mention(#[trigger] rest[j], name);
                assert(lines[k + 1] == rest[k]);
                assert forall|j: int| 0 <= j < k + 1 implies !is_mention(
                    #[trigger] lines[j],
                    name,
                ) by {
                    if j > 0 {
                        assert(lines[j] == rest[j - 1]);
                    }
                }
            },
        }
    } else if lines.len() > 0 {
        assert(lines[0] == lines[0]);
    }
}

/// A comment in which no line addresses the bot is ignored, whoever sent it.
pub proof fn lemma_comment_without_mention(
    name: Seq<char>,
    authorized: Seq<Seq<char>>,
    event: EventView,
)
    requires
        forall|k: int|
            0 <= k < split(encode_utf8(event.body), NEWLINE).len() ==> !is_mention(
                #[trigger] split(encode_utf8(event.body), NEWLINE)[k],
                encode_utf8(name),
            ),
    ensures
        command(name, authorized, event) == Cmd::Ignore,
{
    let lines = split(encode_utf8(event.body), NEWLINE);
    lemma_first_mention(lines, encode_utf8(name));
    if first_mention(lines, encode_utf8(name)) is Some {
        let k = choose|k: int|
            0 <= k < lines.len() && #[trigger] lines[k] == first_mention(
                lines,
                encode_utf8(name),
            )->0 && is_mention(lines[k], encode_utf8(name));
        assert(!is_mention(lines[k], encode_utf8(name)));
    }
}

/// A comment from a sender who is not authorized is ignored, whatever it
/// says.
pub proof fn lemma_unauthorized_sender(
    name: Seq<char>,
    authorized: Seq<Seq<char>>,
    event: EventView,
)
    requires
        !authorized.contains(event.sender),
    ensures
        command(name, authorized, event) == Cmd::Ignore,
{
}

/// A new comment from an authorized sender gives the command of its mention
/// line.
pub proof fn lemma_authorized_sender(
    name: Seq<char>,
    authorized: Seq<Seq<char>>,
    event: EventView,
    line: Seq<u8>,
)
    requires
        event.action == CommentAction::Created,
        name.len() > 0,
        mention_line(encode_utf8(event.body), encode_utf8(name)) == Some(line),
        authorized.contains(event.sender),
    ensures
        is_mention(line, encode_utf8(name)),
        command(name, authorized, event) == line_command(line),
{
    lemma_first_mention(split(encode_utf8(event.body), NEWLINE), encode_utf8(name));
}

/// On a line that addresses a name without spaces, the word after the
/// mention decides: `ping`, `deploy`, and nothing else is understood.
pub proof fn lemma_word_after_mention(line: Seq<u8>, name: Seq<u8>)
    requires
        is_mention(line, name),
        !name.contains(SPACE),
    ensures
        line_command(line) == word_command(word_after_mention(line, name.len())),
{
    let n = name.len() as int;
    assert forall|k: int| 0 <= k < n + 1 implies line[k] != SPACE by {
        if k > 0 {
            assert(line[k] == line.subrange(1, 1 + n)[k - 1]);
            assert(name.contains(name[k - 1]));
        }
    }
    lemma_first_index(line, SPACE, n + 1);
    lemma_split_second(line, SPACE);
    let rest = line.skip(n + 2);
    lemma_first_index_found(rest, SPACE);
    assert(rest.take(first_index(rest, SPACE)) =~= line.subrange(
        n + 2,
        n + 2 + first_index(rest, SPACE),
    ));
}

/// `@name ping` asks for a ping and `@name deploy` for a deployment, when
/// the name has no space in it.
pub proof fn lemma_ping_and_deploy(name: Seq<u8>)
    requires
        !name.contains(SPACE),
    ensures
        is_mention(mention(name) + ping_word(), name),
        line_command(mention(name) + ping_word()) == Cmd::Ping,
        is_mention(mention(name) + deploy_word(), name),
        line_command(mention(name) + deploy_word()) == Cmd::Deploy,
{
    lemma_known_words();
    let n = name.len() as int;
    let ping = mention(name) + ping_word();
    assert(ping.subrange(1, 1 + n) =~= name);
    lemma_word_after_mention(ping, name);
    assert(ping.skip(n + 2) =~= ping_word());
    lemma_first_index(ping_word(), SPACE, 4);
    assert(ping_word().take(4) =~= ping_word());
    let deploy = mention(name) + deploy_word();
    assert(deploy.subrange(1, 1 + n) =~= name);
    lemma_word_after_mention(deploy, name);
    assert(deploy.skip(n + 2) =~= deploy_word());
    lemma_first_index(deploy_word(), SPACE, 6);
    assert(deploy_word().take(6) =~= deploy_word());
}

/// Whether the bytes from `start` to `end` are a line that addresses `name`.
fn addressed(bytes: &[u8], start: usize, end: usize, name: &[u8]) -> (yes: bool)
    requires
        start <= end <= bytes.len(),
    ensures
        yes == is_mention(bytes@.subrange(start as int, end as int), name@),
{
    let ghost line = bytes@.subrange(start as int, end as int);
    let len = end - start;
    if len < 2 || len - 2 <= name.len() {
        return false;
    }
    if bytes[start] != AT_SIGN {
        return false;
    }
    assert(line.subrange(1, 1 + name@.len() as int) =~= bytes@.subrange(
        start + 1,
        start + 1 + name@.len(),
    ));
    if !holds_at(bytes, start + 1, name) {
        return false;
    }
    bytes[start + 1 + name.len()] == SPACE
}

/// The part of `body` from `start` to `end`, which starts with `@` and ends
/// before a newline or with the body.
fn cut<'a>(body: &'a str, start: usize, end: usize) -> (line: &'a str)
    requires
        start < end <= body.spec_bytes().len(),
        body.spec_bytes()[start as int] == AT_SIGN,
        end < body.spec_bytes().len() ==> body.spec_bytes()[end as int] == NEWLINE,
    ensures
        line.spec_bytes() == body.spec_bytes().subrange(start as int, end as int),
{
    let ghost bytes = body.spec_bytes();
    proof {
        encode_utf8_valid_utf8(body@);
        if end < bytes.len() {
            is_char_boundary_iff_not_is_continuation_byte(bytes, end as int);
            assert(!is_continuation_byte(10u8)) by (bit_vector);
        } else {
            is_char_boundary_start_end_of_seq(bytes);
        }
    }
    let (head, _) = body.split_at(end);
    proof {
        valid_utf8_split(bytes, end as int);
        is_char_boundary_iff_not_is_continuation_byte(head.spec_bytes(), start as int);
        assert(!is_continuation_byte(64u8)) by (bit_vector);
    }
    let (_, line) = head.split_at(start);
    line
}

/// Whether the bytes from `from` to `to` are exactly `word`.
fn is_word(bytes: &[u8], from: usize, to: usize, word: &[u8]) -> (yes: bool)
    requires
        from <= to <= bytes.len(),
    ensures
        yes == (bytes@.subrange(from as int, to as int) == word@),
{
    to - from == word.len() && holds_at(bytes, from, word)
}

/// Whether `login` is one of `logins`.
fn listed(logins: &[String], login: &String) -> (yes: bool)
    ensures
        yes == logins.deep_view().contains(login@),
{
    let mut i: usize = 0;
    while i < logins.len()
        invariant
            i <= logins.len(),
            forall|k: int| 0 <= k < i ==> logins.deep_view()[k] != login@,
        decreases logins.len() - i,
    {
        if logins[i] == *login {
            assert(logins.deep_view()[i as int] == login@);
            return true;
        }
        i = i + 1;
    }
    false
}

impl Cmd {
    /// The command that `event` gives the bot that `config` describes.
    pub fn parse(config: &Config, event: &CommentEvent) -> (cmd: Cmd)
        ensures
            cmd == command(config@.name(), config@.authorized(), event@),
    {
        match event.action {
            CommentAction::Created => {},
            _ => {
                return Cmd::Ignore;
            },
        }
        let my_name = config.github_name();
        if my_name.is_empty() {
            return Cmd::Ignore;
        }
        let authorized = config.github_authorized();
        match Cmd::find_mention(event.comment.body.as_str(), my_name) {
            Some(line) => {
                if listed(authorized, &event.sender.login) {
                    Cmd::parse_line(line)
                } else {
                    Cmd::Ignore
                }
            },
            None => Cmd::Ignore,
        }
    }

    /// The first line of `body` that addresses `my_name`.
    pub fn find_mention<'a>(body: &'a str, my_name: &str) -> (line: Option<&'a str>)
        ensures
            match line {
                Some(l) => mention_line(body.spec_bytes(), my_name.spec_bytes()) == Some(
                    l.spec_bytes(),
                ),
                None => mention_line(body.spec_bytes(), my_name.spec_bytes()) is None,
            },
    {
        let bytes = body.as_bytes();
        let name = my_name.as_bytes();
        let mut start: usize = 0;
        assert(bytes@.skip(0) =~= bytes@);
        loop
            invariant
                start <= bytes.len(),
                bytes@ == body.spec_bytes(),
                name@ == my_name.spec_bytes(),
                mention_line(bytes@, name@) == mention_line(bytes@.skip(start as int), name@),
            decreases bytes.len() - start,
        {
            let end = find_byte(bytes, start, NEWLINE);
            proof {
                let rest = bytes@.skip(start as int);
                lemma_split_head(rest, NEWLINE);
                lemma_first_index_found(rest, NEWLINE);
                assert(rest.take(end - start) =~= bytes@.subrange(start as int, end as int));
                if end < bytes.len() {
                    assert(rest.skip(end - start + 1) =~= bytes@.skip(end + 1));
                }
                assert(split(rest, NEWLINE).drop_first().len() == 0 ==> first_mention(
                    split(rest, NEWLINE).drop_first(),
                    name@,
                ) is None);
            }
            if addressed(bytes, start, end, name) {
                return Some(cut(body, start, end));
            }
            if end == bytes.len() {
                return None;
            }
            start = end + 1;
        }
    }

    /// The command on a mention line.
    pub fn parse_line(line: &str) -> (cmd: Cmd)
        ensures
            cmd == line_command(line.spec_bytes()),
    {
        let bytes = line.as_bytes();
        let first = find_byte(bytes, 0, SPACE);
        assert(bytes@.skip(0) =~= bytes@);
        if first == bytes.len() {
            proof {
                lemma_split_head(bytes@, SPACE);
            }
            return Cmd::Unrecognized;
        }
        let from = first + 1;
        let to = find_byte(bytes, from, SPACE);
        proof {
            lemma_split_second(bytes@, SPACE);
        }
        assert(split(bytes@, SPACE)[1] == bytes@.subrange(from as int, to as int));
        if is_word(bytes, from, to, "ping".as_bytes()) {
            Cmd::Ping
        } else if is_word(bytes, from, to, "deploy".as_bytes()) {
            Cmd::Deploy
        } else {
            Cmd::Unrecognized
        }
    }
}

} // verus!
