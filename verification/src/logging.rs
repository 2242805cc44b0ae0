//! The decision core of a logging driver for the external runtime's
//! message facility.
//!
//! The external facility takes a severity code and a C string.  This module
//! decides the severity and frames the message bytes — terminated with a
//! newline, with a fixed fallback text when the message cannot become a C
//! string — and leaves the foreign call itself to the unverified shell
//! around the crate.  Every message is forwarded at the error severity,
//! matching the external runtime's observed filtering; per-level
//! forwarding is a variant to confirm against the live runtime.

use vstd::prelude::*;

use crate::names::{has_nul_byte, str_contains_nul};
use vstd::string::StringSliceAdditionalSpecFns;
use vstd::string::StrSliceExecFns;

verus! {

/// A log record's severity, as the logging facade grades it.
#[derive(Copy, Clone, Debug, PartialEq, Eq, Structural)]
pub enum LogLevel {
    /// An error.
    Error,
    /// A warning.
    Warn,
    /// Informational.
    Info,
    /// Debugging detail.
    Debug,
    /// Tracing detail.
    Trace,
}

/// A message severity of the external runtime's facility.
#[derive(Copy, Clone, Debug, PartialEq, Eq, Structural)]
pub enum RtapiLogLevel {
    /// No output at all.
    Silent,
    /// Errors only.
    Error,
    /// Warnings.
    Warn,
    /// Informational.
    Info,
    /// Debugging detail.
    Dbg,
    /// Everything.
    All,
}

impl RtapiLogLevel {
    /// The numeric severity code the external facility takes.
    pub open spec fn spec_code(self) -> u32 {
        match self {
            RtapiLogLevel::Silent => 0,
            RtapiLogLevel::Error => 1,
            RtapiLogLevel::Warn => 2,
            RtapiLogLevel::Info => 3,
            RtapiLogLevel::Dbg => 4,
            RtapiLogLevel::All => 5,
        }
    }

    /// Return the numeric severity code the external facility takes.
    pub fn code(self) -> (c: u32)
        ensures
            c == self.spec_code(),
    {
        match self {
            RtapiLogLevel::Silent => 0,
            RtapiLogLevel::Error => 1,
            RtapiLogLevel::Warn => 2,
            RtapiLogLevel::Info => 3,
            RtapiLogLevel::Dbg => 4,
            RtapiLogLevel::All => 5,
        }
    }
}

impl From<LogLevel> for RtapiLogLevel {
    fn from(other: LogLevel) -> (r: RtapiLogLevel) {
        match other {
            LogLevel::Error => RtapiLogLevel::Error,
            LogLevel::Warn => RtapiLogLevel::Warn,
            LogLevel::Info => RtapiLogLevel::Info,
            LogLevel::Debug => RtapiLogLevel::Dbg,
            LogLevel::Trace => RtapiLogLevel::All,
        }
    }
}

impl vstd::std_specs::convert::FromSpecImpl<LogLevel> for RtapiLogLevel {
    open spec fn obeys_from_spec() -> bool {
        true
    }

    open spec fn from_spec(other: LogLevel) -> RtapiLogLevel {
        match other {
            LogLevel::Error => RtapiLogLevel::Error,
            LogLevel::Warn => RtapiLogLevel::Warn,
            LogLevel::Info => RtapiLogLevel::Info,
            LogLevel::Debug => RtapiLogLevel::Dbg,
            LogLevel::Trace => RtapiLogLevel::All,
        }
    }
}

/// What the framed line of a message is: the message's bytes terminated
/// with a newline, or the fixed fallback text when the message holds an
/// embedded null byte and so cannot become a C string.
pub open spec fn spec_log_line(message: &str) -> Seq<u8> {
    if has_nul_byte(message.spec_bytes()) {
        ("failed to build log message string").spec_bytes()
    } else {
        message.spec_bytes().push(10u8)
    }
}

/// The logging driver: decides, for each record handed in by the facade,
/// whether it is forwarded, at which severity, and as which bytes.
#[derive(Copy, Clone, Debug, PartialEq, Eq, Structural)]
pub struct RtapiLogger;

impl RtapiLogger {
    /// Whether a record is forwarded at all: always — the external
    /// runtime's facility does its own filtering.
    pub fn enabled(&self) -> (b: bool)
        ensures
            b,
    {
        true
    }

    /// Frame a record's message: the severity code to forward it at, and
    /// the newline-terminated bytes of the line.
    pub fn log(&self, message: &str) -> (r: (u32, Vec<u8>))
        ensures
            r.0 == RtapiLogLevel::Error.spec_code(),
            r.1@ == spec_log_line(message),
    {
        let level = RtapiLogLevel::Error;
        if str_contains_nul(message) {
            let fallback = "failed to build log message string";
            (level.code(), fallback.as_bytes_vec())
        } else {
            let mut line = message.as_bytes_vec();
            line.push(10u8);
            (level.code(), line)
        }
    }

    /// Flush buffered records: the external facility buffers nothing, so
    /// there is nothing to do.
    pub fn flush(&self) {
    }
}

} // verus!
