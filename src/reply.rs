//! SMTP reply codes, their default messages, and rendering with overrides.
use std::collections::HashMap;
use vstd::prelude::*;

verus! {

broadcast use vstd::std_specs::hash::group_hash_axioms;

/// The SMTP replies this server knows, each with one fixed three-digit code.
#[derive(Debug, Clone, Copy, PartialEq, Eq, Structural, Hash)]
pub enum SmtpReply {
    CommandSyntaxError,
    ParamSyntaxError,
    UnknownCommand,
    BadSequence,
    NotImplemented,
    SystemStatus,
    Help,
    ServiceReady,
    ClosingChannel,
    NotAvailable,
    ActionOk,
    Forwarding,
    MailboxBusy,
    MailboxUnavailable,
    ErrorInProcessing,
    UserNotLocal,
    InsufficientStorage,
    ExceededStorage,
    MailboxNameNotAllowed,
    StartMailInput,
    TransactionFailed,
}

/// The character for a decimal digit.
pub open spec fn digit_char(d: int) -> char {
    if d == 0 { '0' }
    else if d == 1 { '1' }
    else if d == 2 { '2' }
    else if d == 3 { '3' }
    else if d == 4 { '4' }
    else if d == 5 { '5' }
    else if d == 6 { '6' }
    else if d == 7 { '7' }
    else if d == 8 { '8' }
    else { '9' }
}

/// The three decimal digits of a number below 1000.
pub open spec fn three_digits(n: int) -> Seq<char> {
    seq![digit_char(n / 100), digit_char((n / 10) % 10), digit_char(n % 10)]
}

/// A reply line as it is sent, without its line terminator: code, space, message.
pub open spec fn reply_line(code: u16, message: Seq<char>) -> Seq<char> {
    three_digits(code as int) + seq![' '] + message
}

/// The line terminator of the protocol.
pub open spec fn crlf() -> Seq<char> {
    seq!['\r', '\n']
}

impl SmtpReply {
    /// The numeric reply code.
    pub open spec fn spec_code(self) -> u16 {
        match self {
            SmtpReply::CommandSyntaxError => 500,
            SmtpReply::ParamSyntaxError => 501,
            SmtpReply::UnknownCommand => 502,
            SmtpReply::BadSequence => 503,
            SmtpReply::NotImplemented => 504,
            SmtpReply::SystemStatus => 211,
            SmtpReply::Help => 214,
            SmtpReply::ServiceReady => 220,
            SmtpReply::ClosingChannel => 221,
            SmtpReply::NotAvailable => 421,
            SmtpReply::ActionOk => 250,
            SmtpReply::Forwarding => 251,
            SmtpReply::MailboxBusy => 450,
            SmtpReply::MailboxUnavailable => 550,
            SmtpReply::ErrorInProcessing => 451,
            SmtpReply::UserNotLocal => 551,
            SmtpReply::InsufficientStorage => 452,
            SmtpReply::ExceededStorage => 552,
            SmtpReply::MailboxNameNotAllowed => 553,
            SmtpReply::StartMailInput => 354,
            SmtpReply::TransactionFailed => 554,
        }
    }

    /// Whether the code reports a failure: a transient (4xx) or permanent (5xx) one.
    pub open spec fn is_error(self) -> bool {
        self.spec_code() >= 400
    }

    /// The built-in message of each reply.
    pub open spec fn spec_default_message(self) -> Seq<char> {
        match self {
            SmtpReply::CommandSyntaxError => "Syntax error, command unrecognized"@,
            SmtpReply::ParamSyntaxError => "Syntax error in parameters or arguments"@,
            SmtpReply::UnknownCommand => "Command not implemented"@,
            SmtpReply::BadSequence => "Bad sequence of commands"@,
            SmtpReply::NotImplemented => "Command parameter not implemented"@,
            SmtpReply::SystemStatus => "System status"@,
            SmtpReply::Help => "Help message"@,
            SmtpReply::ServiceReady => "localhost ESMTP dmail"@,
            SmtpReply::ClosingChannel => "Bye"@,
            SmtpReply::NotAvailable => "Service not available, closing transmission channel"@,
            SmtpReply::ActionOk => "OK"@,
            SmtpReply::Forwarding => "User not local; will forward"@,
            SmtpReply::MailboxBusy => "Requested mail action not taken: mailbox unavailable"@,
            SmtpReply::MailboxUnavailable => "Requested action not taken: mailbox unavailable"@,
            SmtpReply::ErrorInProcessing => "Requested action aborted: error in processing"@,
            SmtpReply::UserNotLocal => "User not local"@,
            SmtpReply::InsufficientStorage => "Requested action not taken: insufficient system storage"@,
            SmtpReply::ExceededStorage => "Requested mail action aborted: exceeded storage allocation"@,
            SmtpReply::MailboxNameNotAllowed => "Requested action not taken: mailbox name not allowed"@,
            SmtpReply::StartMailInput => "Start mail input; end with <CRLF>.<CRLF>"@,
            SmtpReply::TransactionFailed => "Transaction failed"@,
        }
    }

    /// The message of a reply under an override table: the override where the
    /// table has one for its code, else the built-in message.
    pub open spec fn spec_message(self, overrides: Map<u16, Seq<char>>) -> Seq<char> {
        if overrides.contains_key(self.spec_code()) {
            overrides[self.spec_code()]
        } else {
            self.spec_default_message()
        }
    }

    /// The numeric reply code.
    pub fn code(&self) -> (r: u16)
        ensures
            r == self.spec_code(),
            100 <= r < 1000,
    {
        match self {
            SmtpReply::CommandSyntaxError => 500,
            SmtpReply::ParamSyntaxError => 501,
            SmtpReply::UnknownCommand => 502,
            SmtpReply::BadSequence => 503,
            SmtpReply::NotImplemented => 504,
            SmtpReply::SystemStatus => 211,
            SmtpReply::Help => 214,
            SmtpReply::ServiceReady => 220,
            SmtpReply::ClosingChannel => 221,
            SmtpReply::NotAvailable => 421,
            SmtpReply::ActionOk => 250,
            SmtpReply::Forwarding => 251,
            SmtpReply::MailboxBusy => 450,
            SmtpReply::MailboxUnavailable => 550,
            SmtpReply::ErrorInProcessing => 451,
            SmtpReply::UserNotLocal => 551,
            SmtpReply::InsufficientStorage => 452,
            SmtpReply::ExceededStorage => 552,
            SmtpReply::MailboxNameNotAllowed => 553,
            SmtpReply::StartMailInput => 354,
            SmtpReply::TransactionFailed => 554,
        }
    }
    /// The built-in message of this reply; never empty.
    pub fn default_reply_message(&self) -> (r: String)
        ensures
            r@ == self.spec_default_message(),
            r@.len() > 0,
    {
        match self {
            SmtpReply::CommandSyntaxError => {
                proof {
                    reveal_strlit("Syntax error, command unrecognized");
                }
                String::from_str("Syntax error, command unrecognized")
            },
            SmtpReply::ParamSyntaxError => {
                proof {
                    reveal_strlit("Syntax error in parameters or arguments");
                }
                String::from_str("Syntax error in parameters or arguments")
            },
            SmtpReply::UnknownCommand => {
                proof {
                    reveal_strlit("Command not implemented");
                }
                String::from_str("Command not implemented")
            },
            SmtpReply::BadSequence => {
                proof {
                    reveal_strlit("Bad sequence of commands");
                }
                String::from_str("Bad sequence of commands")
            },
            SmtpReply::NotImplemented => {
                proof {
                    reveal_strlit("Command parameter not implemented");
                }
                String::from_str("Command parameter not implemented")
            },
            SmtpReply::SystemStatus => {
                proof {
                    reveal_strlit("System status");
                }
                String::from_str("System status")
            },
            SmtpReply::Help => {
                proof {
                    reveal_strlit("Help message");
                }
                String::from_str("Help message")
            },
            SmtpReply::ServiceReady => {
                proof {
                    reveal_strlit("localhost ESMTP dmail");
                }
                String::from_str("localhost ESMTP dmail")
            },
            SmtpReply::ClosingChannel => {
                proof {
                    reveal_strlit("Bye");
                }
                String::from_str("Bye")
            },
            SmtpReply::NotAvailable => {
                proof {
                    reveal_strlit("Service not available, closing transmission channel");
                }
                String::from_str("Service not available, closing transmission channel")
            },
            SmtpReply::ActionOk => {
                proof {
                    reveal_strlit("OK");
                }
                String::from_str("OK")
            },
            SmtpReply::Forwarding => {
                proof {
                    reveal_strlit("User not local; will forward");
                }
                String::from_str("User not local; will forward")
            },
            SmtpReply::MailboxBusy => {
                proof {
                    reveal_strlit("Requested mail action not taken: mailbox unavailable");
                }
                String::from_str("Requested mail action not taken: mailbox unavailable")
            },
            SmtpReply::MailboxUnavailable => {
                proof {
                    reveal_strlit("Requested action not taken: mailbox unavailable");
                }
                String::from_str("Requested action not taken: mailbox unavailable")
            },
            SmtpReply::ErrorInProcessing => {
                proof {
                    reveal_strlit("Requested action aborted: error in processing");
                }
                String::from_str("Requested action aborted: error in processing")
            },
            SmtpReply::UserNotLocal => {
                proof {
                    reveal_strlit("User not local");
                }
                String::from_str("User not local")
            },
            SmtpReply::InsufficientStorage => {
                proof {
                    reveal_strlit("Requested action not taken: insufficient system storage");
                }
                String::from_str("Requested action not taken: insufficient system storage")
            },
            SmtpReply::ExceededStorage => {
                proof {
                    reveal_strlit("Requested mail action aborted: exceeded storage allocation");
                }
                String::from_str("Requested mail action aborted: exceeded storage allocation")
            },
            SmtpReply::MailboxNameNotAllowed => {
                proof {
                    reveal_strlit("Requested action not taken: mailbox name not allowed");
                }
                String::from_str("Requested action not taken: mailbox name not allowed")
            },
            SmtpReply::StartMailInput => {
                proof {
                    reveal_strlit("Start mail input; end with <CRLF>.<CRLF>");
                }
                String::from_str("Start mail input; end with <CRLF>.<CRLF>")
            },
            SmtpReply::TransactionFailed => {
                proof {
                    reveal_strlit("Transaction failed");
                }
                String::from_str("Transaction failed")
            },
        }
    }

    /// Renders this reply under an override table.
    pub fn render(&self, overrides: &ReplyMessages) -> (r: Reply)
        ensures
            r.is_rendering_of(*self, overrides@),
    {
        match overrides.get(*self) {
            Some(message) => Reply { code: *self, text: message.clone() },
            None => Reply { code: *self, text: self.default_reply_message() },
        }
    }

    /// The reply line for this reply under an override table: its code, a
    /// space, and its message.
    pub fn get_reply_message(&self, overrides: &ReplyMessages) -> (r: String)
        ensures
            r@ == reply_line(self.spec_code(), self.spec_message(overrides@)),
    {
        self.render(overrides).line()
    }
}

/// The characters of a decimal digit.
fn digit_text(d: u16) -> (r: &'static str)
    requires
        d < 10,
    ensures
        r@ == seq![digit_char(d as int)],
{
    let digits = "0123456789";
    proof {
        reveal_strlit("0123456789");
    }
    let r = digits.substring_char(d as usize, d as usize + 1);
    assert(r@ =~= seq![digit_char(d as int)]);
    r
}

/// The three decimal digits of a reply code.
fn code_text(code: u16) -> (r: String)
    requires
        100 <= code < 1000,
    ensures
        r@ == three_digits(code as int),
{
    let mut r = String::from_str(digit_text(code / 100));
    r.append(digit_text((code / 10) % 10));
    r.append(digit_text(code % 10));
    assert(r@ =~= three_digits(code as int));
    r
}

/// A rendered reply: its code and the message sent with it.
#[derive(Debug)]
pub struct Reply {
    pub code: SmtpReply,
    pub text: String,
}

impl Reply {
    /// Whether this reply is what rendering `code` under `overrides` gives.
    pub open spec fn is_rendering_of(self, code: SmtpReply, overrides: Map<u16, Seq<char>>) -> bool {
        &&& self.code == code
        &&& self.text@ == code.spec_message(overrides)
    }

    /// The line as it is sent, with its terminator.
    pub open spec fn spec_wire(self) -> Seq<char> {
        reply_line(self.code.spec_code(), self.text@) + crlf()
    }

    /// The reply line without its terminator: code, a space, and the message.
    pub fn line(&self) -> (r: String)
        ensures
            r@ == reply_line(self.code.spec_code(), self.text@),
    {
        let mut r = code_text(self.code.code());
        r.append(" ");
        r.append(self.text.as_str());
        proof {
            reveal_strlit(" ");
        }
        assert(r@ =~= reply_line(self.code.spec_code(), self.text@));
        r
    }

    /// The reply as it goes on the wire: the line followed by CRLF.
    pub fn to_wire(&self) -> (r: String)
        ensures
            r@ == self.spec_wire(),
    {
        let mut r = self.line();
        r.append("\r\n");
        proof {
            reveal_strlit("\r\n");
        }
        assert(r@ =~= self.spec_wire());
        r
    }
}

/// A table of message overrides, keyed by numeric reply code. It is filled
/// once from configuration and only read afterwards.
pub struct ReplyMessages {
    messages: HashMap<u16, String>,
}

impl View for ReplyMessages {
    type V = Map<u16, Seq<char>>;

    closed spec fn view(&self) -> Map<u16, Seq<char>> {
        self.messages@.map_values(|s: String| s@)
    }
}

impl ReplyMessages {
    /// An empty table: every reply keeps its built-in message.
    pub fn new() -> (r: ReplyMessages)
        ensures
            r@ == Map::<u16, Seq<char>>::empty(),
    {
        let r = ReplyMessages { messages: HashMap::new() };
        assert(r@ =~= Map::<u16, Seq<char>>::empty());
        r
    }

    /// Sets the message of `reply`, replacing an earlier one.
    pub fn set(&mut self, reply: SmtpReply, message: String)
        ensures
            final(self)@ == old(self)@.insert(reply.spec_code(), message@),
    {
        let code = reply.code();
        let ghost m = message@;
        self.messages.insert(code, message);
        assert(self@ =~= old(self)@.insert(reply.spec_code(), m));
    }

    /// The override for `reply`, if the table has one.
    pub fn get(&self, reply: SmtpReply) -> (r: Option<&String>)
        ensures
            match r {
                Some(s) => self@.contains_key(reply.spec_code()) && s@ == self@[reply.spec_code()],
                None => !self@.contains_key(reply.spec_code()),
            },
    {
        let code = reply.code();
        self.messages.get(&code)
    }
}

/// Rendering is a function of the code and the override table: any two
/// renderings of one code under one table are the same reply.
pub proof fn lemma_render_deterministic(
    code: SmtpReply,
    overrides: Map<u16, Seq<char>>,
    r1: Reply,
    r2: Reply,
)
    requires
        r1.is_rendering_of(code, overrides),
        r2.is_rendering_of(code, overrides),
    ensures
        r1.code == r2.code,
        r1.text@ == r2.text@,
        r1.spec_wire() == r2.spec_wire(),
{
}

/// An override of the service-ready message replaces the built-in greeting
/// verbatim.
pub proof fn lemma_greeting_override(overrides: Map<u16, Seq<char>>, r: Reply)
    requires
        overrides.contains_key(SmtpReply::ServiceReady.spec_code()),
        r.is_rendering_of(SmtpReply::ServiceReady, overrides),
    ensures
        r.text@ == overrides[220],
        r.spec_wire() == seq!['2', '2', '0', ' '] + overrides[220] + crlf(),
{
    assert(three_digits(220) =~= seq!['2', '2', '0']);
    assert(r.spec_wire() =~= seq!['2', '2', '0', ' '] + overrides[220] + crlf());
}

} // verus!
