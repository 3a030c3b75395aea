//! From a logging event to the pair of message text and syslog level that the formatters take.
//!
//! The event framework itself stays outside the library: a caller hands over the event's
//! `message` field (if it has one), its level and its name.

use crate::facility::Level;
use vstd::prelude::*;

verus! {

/// The five levels of the tracing framework, most verbose first.
#[derive(Copy, Clone, Debug, PartialEq, Eq, Structural)]
pub enum TracingLevel {
    TRACE,
    DEBUG,
    INFO,
    WARN,
    ERROR,
}

/// The syslog level that a tracing level maps to by default.
pub open spec fn spec_level_mapping(level: TracingLevel) -> Level {
    match level {
        TracingLevel::TRACE | TracingLevel::DEBUG => Level::LOG_DEBUG,
        TracingLevel::INFO => Level::LOG_INFO,
        TracingLevel::WARN => Level::LOG_WARNING,
        TracingLevel::ERROR => Level::LOG_ERR,
    }
}

/// Maps TRACE and DEBUG to `LOG_DEBUG`, INFO to `LOG_INFO`, WARN to `LOG_WARNING` and ERROR to
/// `LOG_ERR`.
pub fn default_level_mapping(level: &TracingLevel) -> (r: Level)
    ensures
        r == spec_level_mapping(*level),
{
    match level {
        TracingLevel::TRACE | TracingLevel::DEBUG => Level::LOG_DEBUG,
        TracingLevel::INFO => Level::LOG_INFO,
        TracingLevel::WARN => Level::LOG_WARNING,
        TracingLevel::ERROR => Level::LOG_ERR,
    }
}

/// Errors in turning an event into message text.
#[derive(Debug)]
pub enum Error {
    /// The event, whose name is given, has no `message` field.
    NoMessageField { name: String },
}

/// Turns an event into its `message` field and the default mapping of its level; fails on
/// events without a `message` field.
pub struct TrivialTracingFormatter {}

impl Default for TrivialTracingFormatter {
    fn default() -> (r: TrivialTracingFormatter)
        ensures
            r == (TrivialTracingFormatter {}),
    {
        TrivialTracingFormatter {}
    }
}

impl TrivialTracingFormatter {
    /// The text and level of an event named `name`, of level `level`, whose `message` field
    /// is `message` (`None` where it has none). Fails with `Error::NoMessageField` carrying the
    /// name when there is no message.
    pub fn on_event(&self, message: Option<String>, level: TracingLevel, name: String) -> (r:
        Result<Option<(String, Level)>, Error>)
        ensures
            message matches Some(m) ==> (r matches Ok(Some((text, l))) && text@ == m@ && l
                == spec_level_mapping(level)),
            message is None ==> (r matches Err(Error::NoMessageField { name: n }) && n@ == name@),
    {
        match message {
            Some(m) => Ok(Some((m, default_level_mapping(&level)))),
            None => Err(Error::NoMessageField { name }),
        }
    }
}

} // verus!
