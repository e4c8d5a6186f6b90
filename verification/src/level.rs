//! The five severity levels and their fixed properties.

use vstd::prelude::*;

verus! {

/// A severity level of the emitted instrumentation annotation.
#[derive(Clone, Copy)]
pub enum Level {
    Trace,
    Debug,
    Info,
    Warn,
    Error,
}

/// The severity tag carried by the annotation of a level.
pub open spec fn level_tag(l: Level) -> Seq<char> {
    match l {
        Level::Trace => "trace"@,
        Level::Debug => "debug"@,
        Level::Info => "info"@,
        Level::Warn => "warn"@,
        Level::Error => "error"@,
    }
}

/// Whether a level's annotation always carries the omit-arguments marker.
/// Only the trace level does.
pub open spec fn level_skips_all(l: Level) -> bool {
    l is Trace
}

/// The severity tag of a level, as text.
pub fn level_tag_str(l: Level) -> (r: &'static str)
    ensures
        r@ == level_tag(l),
{
    match l {
        Level::Trace => "trace",
        Level::Debug => "debug",
        Level::Info => "info",
        Level::Warn => "warn",
        Level::Error => "error",
    }
}

/// Whether a level's annotation carries the omit-arguments marker.
pub fn level_skip_all(l: Level) -> (b: bool)
    ensures
        b == level_skips_all(l),
{
    match l {
        Level::Trace => true,
        Level::Debug => false,
        Level::Info => false,
        Level::Warn => false,
        Level::Error => false,
    }
}

} // verus!
