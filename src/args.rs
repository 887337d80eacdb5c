//! The server's settings: log verbosity, the address to listen on and the
//! command that each session runs.

use vstd::prelude::*;
use crate::decimal::{nat_digits, push_char, push_nat_digits};

verus! {

/// How much the server logs.
#[derive(Clone, Copy, Debug, PartialEq, Eq, Structural)]
pub enum LogLevel {
    Trace,
    Debug,
    Info,
    Warn,
    Error,
}

/// The log level that a verbosity name selects; an unknown name selects
/// `Info`.
pub open spec fn level_of(v: Seq<char>) -> LogLevel {
    if v == "trace"@ {
        LogLevel::Trace
    } else if v == "debug"@ {
        LogLevel::Debug
    } else if v == "info"@ {
        LogLevel::Info
    } else if v == "warn"@ {
        LogLevel::Warn
    } else if v == "error"@ {
        LogLevel::Error
    } else {
        LogLevel::Info
    }
}

/// The server's settings.
#[derive(Clone, Debug)]
pub struct RttydArgs {
    /// One of `trace`, `debug`, `info`, `warn`, `error`.
    pub verbosity: String,
    pub host: String,
    pub port: u16,
    /// The shell command that each session runs.
    pub command: String,
}

fn is_named(v: &String, name: &str) -> (r: bool)
    ensures
        r == (v@ == name@),
{
    let n = String::from_str(name);
    *v == n
}

impl RttydArgs {
    /// The log level that the verbosity selects.
    pub fn log_level(&self) -> (r: LogLevel)
        ensures
            r == level_of(self.verbosity@),
    {
        let v = &self.verbosity;
        if is_named(v, "trace") {
            LogLevel::Trace
        } else if is_named(v, "debug") {
            LogLevel::Debug
        } else if is_named(v, "info") {
            LogLevel::Info
        } else if is_named(v, "warn") {
            LogLevel::Warn
        } else if is_named(v, "error") {
            LogLevel::Error
        } else {
            LogLevel::Info
        }
    }

    /// The address to listen on: `<host>:<port>`.
    pub fn listen_address(&self) -> (r: String)
        ensures
            r@ == self.host@ + seq![':'] + nat_digits(self.port as nat),
    {
        let mut s = String::from_str(self.host.as_str());
        push_char(&mut s, ':');
        push_nat_digits(&mut s, self.port as u32);
        s
    }

    /// The program and arguments that each session runs: the command,
    /// through `sh -c`.
    pub fn launch_argv(&self) -> (r: Vec<String>)
        ensures
            r@.len() == 3,
            r@[0]@ == "sh"@,
            r@[1]@ == "-c"@,
            r@[2]@ == self.command@,
    {
        let mut v: Vec<String> = Vec::new();
        v.push(String::from_str("sh"));
        v.push(String::from_str("-c"));
        v.push(self.command.clone());
        v
    }
}

} // verus!
