//! The console: which calls of the console function are messages, and of which level.

use vstd::prelude::*;

use crate::text::same_text;
use crate::value::{JsValue, SpecJsValue};

verus! {

/// The level of a console message.
#[derive(Debug, Clone, Copy, PartialEq, Eq, Structural)]
pub enum Level {
    Trace,
    Debug,
    Log,
    Info,
    Warn,
    Error,
}

/// The level of that name.
pub open spec fn spec_level(name: Seq<char>) -> Option<Level> {
    if name == "trace"@ {
        Some(Level::Trace)
    } else if name == "debug"@ {
        Some(Level::Debug)
    } else if name == "log"@ {
        Some(Level::Log)
    } else if name == "info"@ {
        Some(Level::Info)
    } else if name == "warn"@ {
        Some(Level::Warn)
    } else if name == "error"@ {
        Some(Level::Error)
    } else {
        None
    }
}

/// Finds the level of that name.
pub fn level_of(name: &str) -> (level: Option<Level>)
    ensures
        level == spec_level(name@),
{
    if same_text(name, "trace") {
        Some(Level::Trace)
    } else if same_text(name, "debug") {
        Some(Level::Debug)
    } else if same_text(name, "log") {
        Some(Level::Log)
    } else if same_text(name, "info") {
        Some(Level::Info)
    } else if same_text(name, "warn") {
        Some(Level::Warn)
    } else if same_text(name, "error") {
        Some(Level::Error)
    } else {
        None
    }
}

/// The level that a value names.
pub open spec fn value_level(value: SpecJsValue) -> Option<Level> {
    match value {
        SpecJsValue::String(name) => spec_level(name),
        _ => None,
    }
}

/// Decides what a call of the console function logs: where there are at least two arguments and
/// the first names a level, the others, at that level; otherwise nothing.
pub fn console_message(args: Vec<JsValue>) -> (message: Option<(Level, Vec<JsValue>)>)
    ensures
        match message {
            Some((level, values)) => {
                &&& args@.len() > 1
                &&& value_level(args@[0]@) == Some(level)
                &&& values@ == args@.skip(1)
            },
            None => args@.len() <= 1 || value_level(args@[0]@) is None,
        },
{
    let mut args: Vec<JsValue> = args;
    let ghost all = args@;
    if args.len() <= 1 {
        return None;
    }
    let first: JsValue = args.remove(0);
    assert(args@ =~= all.skip(1));
    match first {
        JsValue::String(name) => match level_of(name.as_str()) {
            Some(level) => Some((level, args)),
            None => None,
        },
        _ => None,
    }
}

} // verus!
