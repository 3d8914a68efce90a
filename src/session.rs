//! The per-connection session state machine.
use vstd::prelude::*;
use crate::command::{
    helo_verb, is_blank, is_helo_line, is_host_char, is_quit_line, lemma_helo_line_parses,
    lemma_quit_line_parses, line_end, outcome_view, parse, quit_verb, spec_parse, trim_nul, Command,
    CommandView, ParseFailure,
};
use crate::reply::{Reply, ReplyMessages, SmtpReply};

verus! {

/// Where a session stands.
#[derive(Debug, Clone, Copy, PartialEq, Eq, Structural)]
pub enum SessionState {
    /// Connected, not yet greeted by the client.
    Initial,
    /// The client has sent an accepted `HELO`.
    Greeted,
    /// The client has sent `QUIT`; nothing leaves this state.
    Closed,
}

/// A session as a mathematical value.
pub struct SessionView {
    pub state: SessionState,
    pub hostname: Option<Seq<char>>,
}

/// The state of one client connection.
pub struct SmtpSession {
    state: SessionState,
    hostname: Option<String>,
}

impl View for SmtpSession {
    type V = SessionView;

    closed spec fn view(&self) -> SessionView {
        SessionView {
            state: self.state,
            hostname: match self.hostname {
                Some(h) => Some(h@),
                None => None,
            },
        }
    }
}

/// The text of the reply to an accepted `HELO`.
pub open spec fn welcome_text(host: Seq<char>) -> Seq<char> {
    "Nice to meet you, "@ + host + "."@
}

/// The session after one parse outcome.
pub open spec fn next_session(s: SessionView, input: Result<CommandView, ParseFailure>) -> SessionView {
    match input {
        Ok(CommandView::Quit) => SessionView { state: SessionState::Closed, hostname: s.hostname },
        Ok(CommandView::Helo(host)) => if s.state == SessionState::Closed {
            s
        } else {
            SessionView { state: SessionState::Greeted, hostname: Some(host) }
        },
        Err(_) => s,
    }
}

/// The reply code for one parse outcome in a given state.
pub open spec fn reply_code(state: SessionState, input: Result<CommandView, ParseFailure>) -> SmtpReply {
    match input {
        Ok(CommandView::Quit) => SmtpReply::ClosingChannel,
        Ok(CommandView::Helo(_)) => if state == SessionState::Closed {
            SmtpReply::BadSequence
        } else {
            SmtpReply::ActionOk
        },
        Err(ParseFailure::InvalidArguments) => SmtpReply::ParamSyntaxError,
        Err(ParseFailure::UnrecognizedCommand) => SmtpReply::CommandSyntaxError,
    }
}

/// The reply text for one parse outcome in a given state.
pub open spec fn reply_text(state: SessionState, input: Result<CommandView, ParseFailure>) -> Seq<char> {
    match input {
        Ok(CommandView::Quit) => "Bye"@,
        Ok(CommandView::Helo(host)) => if state == SessionState::Closed {
            SmtpReply::BadSequence.spec_default_message()
        } else {
            welcome_text(host)
        },
        Err(_) => "Unknown command"@,
    }
}

impl SmtpSession {
    /// A session on a connection just accepted.
    pub fn new() -> (r: SmtpSession)
        ensures
            r@.state == SessionState::Initial,
            r@.hostname is None,
    {
        SmtpSession { state: SessionState::Initial, hostname: None }
    }

    /// Where the session stands.
    pub fn state(&self) -> (r: SessionState)
        ensures
            r == self@.state,
    {
        self.state
    }

    /// The hostname of the latest accepted `HELO`, if any.
    pub fn hostname(&self) -> (r: Option<&String>)
        ensures
            match r {
                Some(h) => self@.hostname == Some(h@),
                None => self@.hostname is None,
            },
    {
        match &self.hostname {
            Some(h) => Some(h),
            None => None,
        }
    }

    /// The reply sent when a connection opens.
    pub fn service_ready(&self) -> (r: SmtpReply)
        ensures
            r == SmtpReply::ServiceReady,
    {
        SmtpReply::ServiceReady
    }

    /// The greeting sent when a connection opens, under an override table.
    pub fn greeting(&self, overrides: &ReplyMessages) -> (r: Reply)
        ensures
            r.is_rendering_of(SmtpReply::ServiceReady, overrides@),
    {
        self.service_ready().render(overrides)
    }

    /// Advances the session by one parse outcome and returns the reply to it.
    pub fn apply(&mut self, input: Result<Command, ParseFailure>) -> (r: Reply)
        ensures
            final(self)@ == next_session(old(self)@, outcome_view(input)),
            r.code == reply_code(old(self)@.state, outcome_view(input)),
            r.text@ == reply_text(old(self)@.state, outcome_view(input)),
    {
        match input {
            Ok(Command::Quit) => {
                self.state = SessionState::Closed;
                Reply { code: SmtpReply::ClosingChannel, text: String::from_str("Bye") }
            },
            Ok(Command::Helo(host)) => {
                if self.state == SessionState::Closed {
                    let code = SmtpReply::BadSequence;
                    Reply { code, text: code.default_reply_message() }
                } else {
                    let mut text = String::from_str("Nice to meet you, ");
                    text.append(host.as_str());
                    text.append(".");
                    self.state = SessionState::Greeted;
                    self.hostname = Some(host);
                    Reply { code: SmtpReply::ActionOk, text }
                }
            },
            Err(e) => {
                let code = match e {
                    ParseFailure::InvalidArguments => SmtpReply::ParamSyntaxError,
                    ParseFailure::UnrecognizedCommand => SmtpReply::CommandSyntaxError,
                };
                Reply { code, text: String::from_str("Unknown command") }
            },
        }
    }

    /// Parses one chunk of client input and advances the session by it.
    pub fn handle(&mut self, input: &str) -> (r: Reply)
        ensures
            final(self)@ == next_session(old(self)@, spec_parse(input@)),
            r.code == reply_code(old(self)@.state, spec_parse(input@)),
            r.text@ == reply_text(old(self)@.state, spec_parse(input@)),
    {
        let command = parse(input);
        self.apply(command)
    }
}

/// A `HELO` line of the grammar, sent in a state other than `Closed`, parses
/// to `Helo` with its hostname, moves the session to `Greeted`, and is
/// answered with code 250 and a message that holds the hostname verbatim.
pub proof fn lemma_helo_greets(s: SessionView, blanks: Seq<char>, host: Seq<char>, padding: Seq<char>)
    requires
        s.state != SessionState::Closed,
        blanks.len() >= 1,
        forall|i: int| 0 <= i < blanks.len() ==> is_blank(#[trigger] blanks[i]),
        forall|i: int| 0 <= i < host.len() ==> is_host_char(#[trigger] host[i]),
        forall|i: int| 0 <= i < padding.len() ==> padding[i] == '\0',
    ensures
        ({
            let input = spec_parse(helo_verb() + blanks + host + line_end() + padding);
            let text = reply_text(s.state, input);
            &&& input == Ok::<CommandView, ParseFailure>(CommandView::Helo(host))
            &&& next_session(s, input).state == SessionState::Greeted
            &&& next_session(s, input).hostname == Some(host)
            &&& reply_code(s.state, input).spec_code() == 250
            &&& exists|i: int| 0 <= i && i + host.len() <= text.len() && #[trigger] text.subrange(i, i + host.len()) == host
        }),
{
    lemma_helo_line_parses(blanks, host, padding);
    let text = welcome_text(host);
    let i = "Nice to meet you, "@.len() as int;
    assert(text.subrange(i, i + host.len()) =~= host);
    assert(reply_text(s.state, Ok(CommandView::Helo(host))) == text);
    assert(0 <= i && i + host.len() <= text.len());
}

/// Input outside the grammar of `HELO` and `QUIT` is a parse failure; it
/// leaves the session as it was and is answered with an error code.
pub proof fn lemma_rejected_input(s: SessionView, input: Seq<char>)
    requires
        !is_quit_line(trim_nul(input)),
        !is_helo_line(trim_nul(input)),
    ensures
        spec_parse(input) is Err,
        next_session(s, spec_parse(input)) == s,
        reply_code(s.state, spec_parse(input)).is_error(),
{
}

/// `QUIT` parses as such, and in every state it closes the session and is
/// answered with code 221.
pub proof fn lemma_quit_closes(s: SessionView, padding: Seq<char>)
    requires
        forall|i: int| 0 <= i < padding.len() ==> padding[i] == '\0',
    ensures
        ({
            let input = spec_parse(quit_verb() + line_end() + padding);
            &&& input == Ok::<CommandView, ParseFailure>(CommandView::Quit)
            &&& next_session(s, input).state == SessionState::Closed
            &&& reply_code(s.state, input).spec_code() == 221
        }),
{
    lemma_quit_line_parses(padding);
}

/// No input takes a session out of `Closed`.
pub proof fn lemma_closed_is_final(s: SessionView, input: Result<CommandView, ParseFailure>)
    requires
        s.state == SessionState::Closed,
    ensures
        next_session(s, input).state == SessionState::Closed,
{
}

/// Two `HELO`s in a row are each accepted, and the session keeps the
/// hostname of the second.
pub proof fn lemma_repeated_helo(s: SessionView, first: Seq<char>, second: Seq<char>)
    requires
        s.state != SessionState::Closed,
    ensures
        ({
            let s1 = next_session(s, Ok(CommandView::Helo(first)));
            let s2 = next_session(s1, Ok(CommandView::Helo(second)));
            &&& reply_code(s.state, Ok(CommandView::Helo(first))) == SmtpReply::ActionOk
            &&& reply_code(s1.state, Ok(CommandView::Helo(second))) == SmtpReply::ActionOk
            &&& s2.state == SessionState::Greeted
            &&& s2.hostname == Some(second)
        }),
{
}

} // verus!
