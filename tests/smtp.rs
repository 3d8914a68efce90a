use dmail_smtp::command::{parse, Command, ParseFailure};
use dmail_smtp::config::{default_smtp_port, Config, SmtpConfig, DEFAULT_SMTP_PORT};
use dmail_smtp::reply::{Reply, ReplyMessages, SmtpReply};
use dmail_smtp::session::{SessionState, SmtpSession};

#[test]
fn helo() {
    let input = "HELO relay.example.org";
    let output = parse(input);
    println!("{output:#?}");
    assert_eq!(output, Err(ParseFailure::InvalidArguments));
}

#[test]
fn helo_with_crlf_parses_hostname() {
    assert_eq!(
        parse("HELO relay.example.org\r\n"),
        Ok(Command::Helo("relay.example.org".to_string()))
    );
}

#[test]
fn helo_with_several_blanks_and_tab() {
    assert_eq!(parse("HELO \t  mx1.example\r\n"), Ok(Command::Helo("mx1.example".to_string())));
}

#[test]
fn helo_with_empty_hostname_is_accepted() {
    assert_eq!(parse("HELO \r\n"), Ok(Command::Helo(String::new())));
}

#[test]
fn helo_with_non_ascii_alphanumeric_hostname() {
    assert_eq!(parse("HELO héllo.例\r\n"), Ok(Command::Helo("héllo.例".to_string())));
}

#[test]
fn helo_with_non_alphanumeric_hostname_is_rejected() {
    assert_eq!(parse("HELO bad-host\r\n"), Err(ParseFailure::InvalidArguments));
    assert_eq!(parse("HELO a☃b\r\n"), Err(ParseFailure::InvalidArguments));
}

#[test]
fn helo_without_blank_is_rejected() {
    assert_eq!(parse("HELOx\r\n"), Err(ParseFailure::UnrecognizedCommand));
    assert_eq!(parse("HELO\r\n"), Err(ParseFailure::InvalidArguments));
}

#[test]
fn quit_parses() {
    assert_eq!(parse("QUIT\r\n"), Ok(Command::Quit));
}

#[test]
fn quit_with_argument_is_rejected() {
    assert_eq!(parse("QUIT now\r\n"), Err(ParseFailure::InvalidArguments));
}

#[test]
fn nul_padding_is_ignored() {
    let mut input = String::from("QUIT\r\n");
    input.push_str(&"\0".repeat(1018));
    assert_eq!(parse(&input), Ok(Command::Quit));
    assert_eq!(parse("HELO a.b\r\n\0\0\0"), Ok(Command::Helo("a.b".to_string())));
}

#[test]
fn text_after_crlf_is_rejected() {
    assert_eq!(parse("QUIT\r\nQUIT\r\n"), Err(ParseFailure::InvalidArguments));
}

#[test]
fn empty_input_is_rejected() {
    assert_eq!(parse(""), Err(ParseFailure::UnrecognizedCommand));
}

#[test]
fn lowercase_verbs_are_rejected() {
    assert_eq!(parse("helo relay.example.org\r\n"), Err(ParseFailure::UnrecognizedCommand));
    assert_eq!(parse("quit\r\n"), Err(ParseFailure::UnrecognizedCommand));
}

#[test]
fn missing_crlf_is_rejected() {
    assert_eq!(parse("QUIT"), Err(ParseFailure::InvalidArguments));
    assert_eq!(parse("QUIT\n"), Err(ParseFailure::InvalidArguments));
}

#[test]
fn reply_codes() {
    assert_eq!(SmtpReply::ServiceReady.code(), 220);
    assert_eq!(SmtpReply::ClosingChannel.code(), 221);
    assert_eq!(SmtpReply::ActionOk.code(), 250);
    assert_eq!(SmtpReply::CommandSyntaxError.code(), 500);
    assert_eq!(SmtpReply::ParamSyntaxError.code(), 501);
    assert_eq!(SmtpReply::StartMailInput.code(), 354);
}

#[test]
fn default_messages_are_never_empty() {
    let all = [
        SmtpReply::CommandSyntaxError,
        SmtpReply::ParamSyntaxError,
        SmtpReply::UnknownCommand,
        SmtpReply::BadSequence,
        SmtpReply::NotImplemented,
        SmtpReply::SystemStatus,
        SmtpReply::Help,
        SmtpReply::ServiceReady,
        SmtpReply::ClosingChannel,
        SmtpReply::NotAvailable,
        SmtpReply::ActionOk,
        SmtpReply::Forwarding,
        SmtpReply::MailboxBusy,
        SmtpReply::MailboxUnavailable,
        SmtpReply::ErrorInProcessing,
        SmtpReply::UserNotLocal,
        SmtpReply::InsufficientStorage,
        SmtpReply::ExceededStorage,
        SmtpReply::MailboxNameNotAllowed,
        SmtpReply::StartMailInput,
        SmtpReply::TransactionFailed,
    ];
    for r in all {
        assert!(!r.default_reply_message().is_empty());
    }
    assert_eq!(SmtpReply::ServiceReady.default_reply_message(), "localhost ESMTP dmail");
}

#[test]
fn reply_message_uses_default_without_override() {
    let table = ReplyMessages::new();
    assert_eq!(SmtpReply::ServiceReady.get_reply_message(&table), "220 localhost ESMTP dmail");
    assert_eq!(SmtpReply::ClosingChannel.get_reply_message(&table), "221 Bye");
}

#[test]
fn reply_message_uses_override() {
    let mut table = ReplyMessages::new();
    table.set(SmtpReply::ServiceReady, "hi there".to_string());
    assert_eq!(SmtpReply::ServiceReady.get_reply_message(&table), "220 hi there");
    assert_eq!(table.get(SmtpReply::ServiceReady).map(|s| s.as_str()), Some("hi there"));
    assert_eq!(table.get(SmtpReply::ActionOk), None);
}

#[test]
fn later_override_replaces_earlier() {
    let mut table = ReplyMessages::new();
    table.set(SmtpReply::ServiceReady, "one".to_string());
    table.set(SmtpReply::ServiceReady, "two".to_string());
    assert_eq!(SmtpReply::ServiceReady.render(&table).text, "two");
}

#[test]
fn rendering_is_deterministic() {
    let mut table = ReplyMessages::new();
    table.set(SmtpReply::Help, "see the manual".to_string());
    for code in [SmtpReply::Help, SmtpReply::ServiceReady] {
        let a = code.render(&table);
        let b = code.render(&table);
        assert_eq!(a.code, b.code);
        assert_eq!(a.text, b.text);
        assert_eq!(a.to_wire(), b.to_wire());
    }
}

#[test]
fn wire_format() {
    let r = Reply { code: SmtpReply::MailboxNameNotAllowed, text: "no".to_string() };
    assert_eq!(r.line(), "553 no");
    assert_eq!(r.to_wire(), "553 no\r\n");
}

#[test]
fn greeting_override_is_used_verbatim() {
    let mut table = ReplyMessages::new();
    table.set(SmtpReply::ServiceReady, "hi there".to_string());
    let session = SmtpSession::new();
    assert_eq!(session.greeting(&table).to_wire(), "220 hi there\r\n");
}

#[test]
fn session_starts_initial() {
    let session = SmtpSession::new();
    assert_eq!(session.state(), SessionState::Initial);
    assert_eq!(session.hostname(), None);
    assert_eq!(session.service_ready(), SmtpReply::ServiceReady);
}

#[test]
fn scenario_greet_and_quit() {
    let table = Config::default().smtp.reply_messages;
    let mut session = SmtpSession::new();
    assert_eq!(session.greeting(&table).to_wire(), "220 localhost ESMTP dmail\r\n");
    let r = session.handle("HELO relay.example.org\r\n");
    assert_eq!(r.to_wire(), "250 Nice to meet you, relay.example.org.\r\n");
    assert_eq!(session.state(), SessionState::Greeted);
    let r = session.handle("QUIT\r\n");
    assert_eq!(r.to_wire(), "221 Bye\r\n");
    assert_eq!(session.state(), SessionState::Closed);
}

#[test]
fn scenario_unknown_command_then_quit() {
    let mut session = SmtpSession::new();
    let r = session.handle("BANANA\r\n");
    assert_eq!(r.code, SmtpReply::CommandSyntaxError);
    assert_eq!(r.to_wire(), "500 Unknown command\r\n");
    assert_eq!(session.state(), SessionState::Initial);
    let r = session.handle("QUIT\r\n");
    assert_eq!(r.to_wire(), "221 Bye\r\n");
}

#[test]
fn scenario_configured_greeting() {
    let mut config = Config::default();
    config.smtp.reply_messages.set(SmtpReply::ServiceReady, "hi there".to_string());
    let session = SmtpSession::new();
    assert_eq!(session.greeting(&config.smtp.reply_messages).to_wire(), "220 hi there\r\n");
}

#[test]
fn bad_parameters_get_param_syntax_error() {
    let mut session = SmtpSession::new();
    let r = session.handle("HELO bad-host\r\n");
    assert_eq!(r.code, SmtpReply::ParamSyntaxError);
    assert_eq!(r.to_wire(), "501 Unknown command\r\n");
    assert_eq!(session.state(), SessionState::Initial);
}

#[test]
fn rejected_input_keeps_greeted_state() {
    let mut session = SmtpSession::new();
    session.handle("HELO a\r\n");
    for bad in ["", "helo a\r\n", "HELO a", "NOOP\r\n"] {
        let r = session.handle(bad);
        assert!(r.code.code() >= 400);
        assert_eq!(session.state(), SessionState::Greeted);
        assert_eq!(session.hostname().map(|s| s.as_str()), Some("a"));
    }
}

#[test]
fn quit_from_every_state() {
    let mut fresh = SmtpSession::new();
    assert_eq!(fresh.apply(Ok(Command::Quit)).code.code(), 221);
    assert_eq!(fresh.state(), SessionState::Closed);

    let mut greeted = SmtpSession::new();
    greeted.apply(Ok(Command::Helo("x".to_string())));
    assert_eq!(greeted.apply(Ok(Command::Quit)).code.code(), 221);
    assert_eq!(greeted.state(), SessionState::Closed);

    assert_eq!(greeted.apply(Ok(Command::Quit)).code.code(), 221);
    assert_eq!(greeted.state(), SessionState::Closed);
}

#[test]
fn helo_after_quit_is_bad_sequence() {
    let mut session = SmtpSession::new();
    session.apply(Ok(Command::Quit));
    let r = session.apply(Ok(Command::Helo("late".to_string())));
    assert_eq!(r.to_wire(), "503 Bad sequence of commands\r\n");
    assert_eq!(session.state(), SessionState::Closed);
    assert_eq!(session.hostname(), None);
}

#[test]
fn repeated_helo_keeps_latest_hostname() {
    let mut session = SmtpSession::new();
    let r1 = session.handle("HELO host1\r\n");
    assert_eq!(r1.to_wire(), "250 Nice to meet you, host1.\r\n");
    let r2 = session.handle("HELO host2\r\n");
    assert_eq!(r2.to_wire(), "250 Nice to meet you, host2.\r\n");
    assert_eq!(session.state(), SessionState::Greeted);
    assert_eq!(session.hostname().map(|s| s.as_str()), Some("host2"));
}

#[test]
fn default_configuration() {
    assert_eq!(default_smtp_port(), 25);
    assert_eq!(DEFAULT_SMTP_PORT, 25);
    let smtp = SmtpConfig::default();
    assert_eq!(smtp.port, 25);
    assert_eq!(smtp.reply_messages.get(SmtpReply::ServiceReady), None);
    assert_eq!(Config::default().smtp.port, 25);
}
