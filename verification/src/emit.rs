//! The exact text of the emitted annotation and of the whole emission.

use vstd::prelude::*;
use vstd::string::StringExecFns;
use crate::level::{Level, level_tag, level_skips_all, level_tag_str, level_skip_all};

verus! {

/// The severity field of the annotation's argument list: `level = "<tag>"`.
pub open spec fn level_field_text(l: Level) -> Seq<char> {
    "level = \""@ + level_tag(l) + "\""@
}

/// The omit-arguments marker, where the level carries one; empty otherwise.
pub open spec fn skip_text(l: Level) -> Seq<char> {
    if level_skips_all(l) {
        ", skip_all"@
    } else {
        Seq::<char>::empty()
    }
}

/// The argument list of the emitted annotation: the severity field, the
/// omit-arguments marker for the level that always skips, a separator, then
/// the caller's extra parameters verbatim.
pub open spec fn attr_args_text(l: Level, params: Seq<char>) -> Seq<char> {
    level_field_text(l) + skip_text(l) + ", "@ + params
}

/// The fixed part of the argument list, in front of the caller's parameters.
pub open spec fn attr_args_prefix(l: Level) -> Seq<char> {
    level_field_text(l) + skip_text(l) + ", "@
}

/// The whole annotation line: `#[::tracing::instrument(<args>)]`.
pub open spec fn instrument_attribute_text(l: Level, params: Seq<char>) -> Seq<char> {
    "#[::tracing::instrument("@ + attr_args_text(l, params) + ")]"@
}

/// The whole emission: the annotation line, a line break, then the function
/// text unchanged.
pub open spec fn instrumented_text(l: Level, params: Seq<char>, item: Seq<char>) -> Seq<char> {
    instrument_attribute_text(l, params) + "\n"@ + item
}

/// Builds the annotation line for a level and the caller's extra parameters.
pub fn instrument_attribute(l: Level, params: &str) -> (r: String)
    ensures
        r@ == instrument_attribute_text(l, params@),
{
    let mut s = String::new();
    s.append("#[::tracing::instrument(");
    s.append("level = \"");
    s.append(level_tag_str(l));
    s.append("\"");
    if level_skip_all(l) {
        s.append(", skip_all");
    }
    s.append(", ");
    s.append(params);
    s.append(")]");
    proof {
        assert(s@ =~= instrument_attribute_text(l, params@));
    }
    s
}

/// The rewrite preserves the annotated function: whatever the level and the
/// extra parameters, the emitted text ends with the function text unchanged.
pub proof fn lemma_function_text_preserved(l: Level, params: Seq<char>, item: Seq<char>)
    ensures
        instrumented_text(l, params, item).len() >= item.len(),
        instrumented_text(l, params, item).skip(
            instrumented_text(l, params, item).len() - item.len(),
        ) == item,
{
    let out = instrumented_text(l, params, item);
    assert(out.skip(out.len() - item.len()) =~= item);
}

/// The trace-level annotation always carries the omit-arguments marker: its
/// argument list is the severity field, the marker, a separator, then the
/// caller's parameters, whatever those parameters are.
pub proof fn lemma_trace_always_skips_args(params: Seq<char>)
    ensures
        attr_args_text(Level::Trace, params) == level_field_text(Level::Trace) + ", skip_all"@
            + ", "@ + params,
{
    assert(attr_args_text(Level::Trace, params) =~= level_field_text(Level::Trace)
        + ", skip_all"@ + ", "@ + params);
}

/// The four other levels add no omit-arguments marker of their own: their
/// argument list is the severity field, a separator, then exactly the
/// caller's parameters, so a marker appears only where the caller wrote one.
pub proof fn lemma_only_trace_skips_args(l: Level, params: Seq<char>)
    requires
        !(l is Trace),
    ensures
        attr_args_text(l, params) == level_field_text(l) + ", "@ + params,
{
    assert(attr_args_text(l, params) =~= level_field_text(l) + ", "@ + params);
}

/// Caller-supplied parameters appear verbatim, in the given order, at the
/// tail of the annotation's argument list, directly after its fixed prefix:
/// the severity field and, for the trace level, the omit-arguments marker.
pub proof fn lemma_params_verbatim(l: Level, params: Seq<char>)
    ensures
        attr_args_text(l, params) == attr_args_prefix(l) + params,
        attr_args_text(l, params).skip(attr_args_prefix(l).len() as int) == params,
{
    assert(attr_args_text(l, params) =~= attr_args_prefix(l) + params);
    assert(attr_args_text(l, params).skip(attr_args_prefix(l).len() as int) =~= params);
}

} // verus!
