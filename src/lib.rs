//! Protocol core of a minimal SMTP server: reply codes and their messages,
//! a parser for command lines, and the per-connection session state machine.
pub mod command;
pub mod config;
pub mod reply;
pub mod session;
