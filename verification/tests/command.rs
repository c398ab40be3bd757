use fxabot::command::Cmd;
use fxabot::config::{Config, Github, Inner, Server};
use fxabot::event::{Comment, CommentAction, CommentEvent, Issue, Repository, User};

fn config(name: &str, authorized: &[&str]) -> Config {
    Config::new(Inner {
        github: Some(Github {
            username: name.to_string(),
            authorized: authorized.iter().map(|s| s.to_string()).collect(),
            api: None,
            token: None,
            webhook_secret: None,
        }),
        server: Server { host: "127.0.0.1".to_string(), port: Some(0) },
    })
}

fn event(action: CommentAction, body: &str, sender: &str) -> CommentEvent {
    CommentEvent {
        action,
        comment: Comment { body: body.to_string(), user: User { login: sender.to_string() } },
        issue: Issue { number: 7, title: "A title".to_string() },
        repository: Repository { full_name: "owner/repo".to_string() },
        sender: User { login: sender.to_string() },
    }
}

fn created(body: &str, sender: &str) -> CommentEvent {
    event(CommentAction::Created, body, sender)
}

#[test]
fn mention_is_found_on_the_only_line() {
    assert_eq!(Cmd::find_mention("@bot ping", "bot"), Some("@bot ping"));
}

#[test]
fn mention_is_found_among_prose() {
    let body = "Thanks for the patch.\n@bot deploy please\nSee you.";
    assert_eq!(Cmd::find_mention(body, "bot"), Some("@bot deploy please"));
}

#[test]
fn mention_keeps_a_carriage_return() {
    assert_eq!(Cmd::find_mention("hello\r\n@bot ping\r\nbye", "bot"), Some("@bot ping\r"));
}

#[test]
fn only_the_first_mention_counts() {
    let body = "@bot ping\n@bot deploy";
    assert_eq!(Cmd::find_mention(body, "bot"), Some("@bot ping"));
    assert_eq!(Cmd::parse(&config("bot", &["alice"]), &created(body, "alice")), Cmd::Ping);
}

#[test]
fn mention_needs_something_after_the_space() {
    assert_eq!(Cmd::find_mention("@bot ", "bot"), None);
    assert_eq!(Cmd::find_mention("@bot", "bot"), None);
    assert_eq!(Cmd::find_mention("@bot x", "bot"), Some("@bot x"));
    assert_eq!(Cmd::find_mention("@bot  ", "bot"), Some("@bot  "));
}

#[test]
fn mention_must_start_the_line() {
    assert_eq!(Cmd::find_mention(" @bot ping", "bot"), None);
    assert_eq!(Cmd::find_mention("hey @bot ping", "bot"), None);
    assert_eq!(Cmd::find_mention("bot ping now", "bot"), None);
}

#[test]
fn mention_must_name_the_bot_exactly() {
    assert_eq!(Cmd::find_mention("@bott ping", "bot"), None);
    assert_eq!(Cmd::find_mention("@bo ping it", "bot"), None);
    assert_eq!(Cmd::find_mention("@Bot ping", "bot"), None);
    assert_eq!(Cmd::find_mention("@bot\tping", "bot"), None);
}

#[test]
fn mention_is_not_found_in_an_empty_body() {
    assert_eq!(Cmd::find_mention("", "bot"), None);
    assert_eq!(Cmd::find_mention("\n\n\n", "bot"), None);
}

#[test]
fn mention_is_found_after_text_that_is_not_ascii() {
    let body = "caf\u{e9} \u{1f600}\n@b\u{f6}t ping \u{2713}\nfin";
    assert_eq!(Cmd::find_mention(body, "b\u{f6}t"), Some("@b\u{f6}t ping \u{2713}"));
    assert_eq!(Cmd::find_mention("\u{e9}@bot ping", "bot"), None);
}

#[test]
fn second_word_names_the_command() {
    assert_eq!(Cmd::parse_line("@bot ping"), Cmd::Ping);
    assert_eq!(Cmd::parse_line("@bot deploy"), Cmd::Deploy);
    assert_eq!(Cmd::parse_line("@bot ping now"), Cmd::Ping);
    assert_eq!(Cmd::parse_line("@bot deploy to production"), Cmd::Deploy);
}

#[test]
fn other_words_are_not_understood() {
    assert_eq!(Cmd::parse_line("@bot pong"), Cmd::Unrecognized);
    assert_eq!(Cmd::parse_line("@bot Ping"), Cmd::Unrecognized);
    assert_eq!(Cmd::parse_line("@bot pings"), Cmd::Unrecognized);
    assert_eq!(Cmd::parse_line("@bot pin"), Cmd::Unrecognized);
    assert_eq!(Cmd::parse_line("@bot deployed"), Cmd::Unrecognized);
    assert_eq!(Cmd::parse_line("@bot ping\r"), Cmd::Unrecognized);
}

#[test]
fn absent_or_empty_second_word_is_not_understood() {
    assert_eq!(Cmd::parse_line("@bot"), Cmd::Unrecognized);
    assert_eq!(Cmd::parse_line(""), Cmd::Unrecognized);
    assert_eq!(Cmd::parse_line("@bot "), Cmd::Unrecognized);
    assert_eq!(Cmd::parse_line("@bot  ping"), Cmd::Unrecognized);
}

#[test]
fn first_word_is_not_checked() {
    assert_eq!(Cmd::parse_line("anything ping"), Cmd::Ping);
    assert_eq!(Cmd::parse_line(" deploy"), Cmd::Deploy);
}

#[test]
fn authorized_commands_are_recognized() {
    let config = config("bot", &["alice", "bob"]);
    assert_eq!(Cmd::parse(&config, &created("@bot ping", "alice")), Cmd::Ping);
    assert_eq!(Cmd::parse(&config, &created("@bot deploy", "bob")), Cmd::Deploy);
    assert_eq!(Cmd::parse(&config, &created("@bot dance", "bob")), Cmd::Unrecognized);
    assert_eq!(Cmd::parse(&config, &created("hi\n@bot ping\nbye", "alice")), Cmd::Ping);
}

#[test]
fn comment_without_mention_is_ignored() {
    let config = config("bot", &["alice"]);
    assert_eq!(Cmd::parse(&config, &created("ping", "alice")), Cmd::Ignore);
    assert_eq!(Cmd::parse(&config, &created("", "alice")), Cmd::Ignore);
    assert_eq!(Cmd::parse(&config, &created("please @bot ping", "alice")), Cmd::Ignore);
    assert_eq!(Cmd::parse(&config, &created("@bot ", "alice")), Cmd::Ignore);
}

#[test]
fn unauthorized_sender_is_ignored() {
    let config = config("bot", &["alice"]);
    assert_eq!(Cmd::parse(&config, &created("@bot ping", "mallory")), Cmd::Ignore);
    assert_eq!(Cmd::parse(&config, &created("@bot deploy", "mallory")), Cmd::Ignore);
    assert_eq!(Cmd::parse(&config, &created("@bot dance", "mallory")), Cmd::Ignore);
    assert_eq!(Cmd::parse(&config, &created("@bot ping", "Alice")), Cmd::Ignore);
    assert_eq!(Cmd::parse(&config, &created("@bot ping", "alic")), Cmd::Ignore);
    assert_eq!(Cmd::parse(&self::config("bot", &[]), &created("@bot ping", "alice")), Cmd::Ignore);
}

#[test]
fn authorization_goes_by_the_sender_not_the_author() {
    let config = config("bot", &["alice"]);
    let mut ev = created("@bot ping", "mallory");
    ev.comment.user.login = "alice".to_string();
    assert_eq!(Cmd::parse(&config, &ev), Cmd::Ignore);
    let mut ev = created("@bot ping", "alice");
    ev.comment.user.login = "mallory".to_string();
    assert_eq!(Cmd::parse(&config, &ev), Cmd::Ping);
}

#[test]
fn edited_and_deleted_comments_are_ignored() {
    let config = config("bot", &["alice"]);
    assert_eq!(Cmd::parse(&config, &event(CommentAction::Edited, "@bot ping", "alice")), Cmd::Ignore);
    assert_eq!(Cmd::parse(&config, &event(CommentAction::Deleted, "@bot ping", "alice")), Cmd::Ignore);
}

#[test]
fn bot_without_a_name_ignores_everything() {
    let unnamed = config("", &["alice"]);
    assert_eq!(Cmd::parse(&unnamed, &created("@ ping", "alice")), Cmd::Ignore);
    let unconfigured = Config::new(Inner {
        github: None,
        server: Server { host: "127.0.0.1".to_string(), port: None },
    });
    assert_eq!(Cmd::parse(&unconfigured, &created("@bot ping", "alice")), Cmd::Ignore);
}

#[test]
fn name_with_a_space_takes_its_second_half_for_the_command() {
    let config = config("my bot", &["alice"]);
    assert_eq!(Cmd::find_mention("@my bot ping", "my bot"), Some("@my bot ping"));
    assert_eq!(Cmd::parse(&config, &created("@my bot ping", "alice")), Cmd::Unrecognized);
    let config = self::config("my ping", &["alice"]);
    assert_eq!(Cmd::parse(&config, &created("@my ping x", "alice")), Cmd::Ping);
}
