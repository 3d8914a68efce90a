//! Settings of the server that the protocol core reads.
use vstd::prelude::*;
use crate::reply::ReplyMessages;

verus! {

/// The port an SMTP server listens on unless configured otherwise.
pub const DEFAULT_SMTP_PORT: u16 = 25;

/// The port used when the configuration names none.
pub fn default_smtp_port() -> (r: u16)
    ensures
        r == DEFAULT_SMTP_PORT,
{
    DEFAULT_SMTP_PORT
}

/// SMTP settings: the listening port and the reply message overrides.
pub struct SmtpConfig {
    pub port: u16,
    pub reply_messages: ReplyMessages,
}

impl Default for SmtpConfig {
    fn default() -> (r: SmtpConfig)
        ensures
            r.port == DEFAULT_SMTP_PORT,
            r.reply_messages@ == Map::<u16, Seq<char>>::empty(),
    {
        SmtpConfig { port: default_smtp_port(), reply_messages: ReplyMessages::new() }
    }
}

/// The whole configuration of the server.
pub struct Config {
    pub smtp: SmtpConfig,
}

impl Default for Config {
    fn default() -> (r: Config)
        ensures
            r.smtp.port == DEFAULT_SMTP_PORT,
            r.smtp.reply_messages@ == Map::<u16, Seq<char>>::empty(),
    {
        Config { smtp: SmtpConfig::default() }
    }
}

} // verus!
