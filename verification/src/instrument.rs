//! The rewrite itself: one shared transform and the five level-fixed entry
//! points.

use vstd::prelude::*;
use vstd::string::StringExecFns;
use crate::level::Level;
use crate::emit::{instrument_attribute, instrumented_text};

verus! {

/// The one way the rewrite fails: the annotated text is not a function
/// definition.
#[derive(Debug, PartialEq, Eq)]
pub enum InstrumentError {
    NotAFunction,
}

/// Holds exactly of the texts that parse as a Rust function definition.
pub uninterp spec fn is_fn_definition(s: Seq<char>) -> bool;

/// Relies on syn::parse_str::<syn::ItemFn>, which returns Ok exactly when
/// the text parses as a Rust function definition.
#[verifier::external_body]
fn parses_as_fn_definition(src: &str) -> (r: bool)
    ensures
        r == is_fn_definition(src@),
{
    syn::parse_str::<syn::ItemFn>(src).is_ok()
}

/// The shared rewrite. Succeeds exactly on function definitions; the output
/// is the level's annotation carrying the caller's extra parameters, a line
/// break, then the function text unchanged.
pub fn instrument_item(l: Level, params: &str, item: &str) -> (r: Result<
    String,
    InstrumentError,
>)
    ensures
        r is Ok <==> is_fn_definition(item@),
        r is Ok ==> r->Ok_0@ == instrumented_text(l, params@, item@),
        r is Err ==> r->Err_0 is NotAFunction,
{
    if !parses_as_fn_definition(item) {
        return Err(InstrumentError::NotAFunction);
    }
    let mut out = instrument_attribute(l, params);
    out.append("\n");
    out.append(item);
    proof {
        assert(out@ =~= instrumented_text(l, params@, item@));
    }
    Ok(out)
}

/// Trace-level rewrite: severity tag `trace`, omit-arguments marker always
/// included, extra parameters passed through verbatim.
pub fn instrument_trace_macro(attr: &str, item: &str) -> (r: Result<String, InstrumentError>)
    ensures
        r is Ok <==> is_fn_definition(item@),
        r is Ok ==> r->Ok_0@ == instrumented_text(Level::Trace, attr@, item@),
        r is Err ==> r->Err_0 is NotAFunction,
{
    instrument_item(Level::Trace, attr, item)
}

/// Debug-level rewrite: severity tag `debug`, no omit-arguments marker,
/// extra parameters passed through verbatim.
pub fn instrument_debug_macro(attr: &str, item: &str) -> (r: Result<String, InstrumentError>)
    ensures
        r is Ok <==> is_fn_definition(item@),
        r is Ok ==> r->Ok_0@ == instrumented_text(Level::Debug, attr@, item@),
        r is Err ==> r->Err_0 is NotAFunction,
{
    instrument_item(Level::Debug, attr, item)
}

/// Info-level rewrite: severity tag `info`, no omit-arguments marker,
/// extra parameters passed through verbatim.
pub fn instrument_info_macro(attr: &str, item: &str) -> (r: Result<String, InstrumentError>)
    ensures
        r is Ok <==> is_fn_definition(item@),
        r is Ok ==> r->Ok_0@ == instrumented_text(Level::Info, attr@, item@),
        r is Err ==> r->Err_0 is NotAFunction,
{
    instrument_item(Level::Info, attr, item)
}

/// Warn-level rewrite: severity tag `warn`, no omit-arguments marker,
/// extra parameters passed through verbatim.
pub fn instrument_warn_macro(attr: &str, item: &str) -> (r: Result<String, InstrumentError>)
    ensures
        r is Ok <==> is_fn_definition(item@),
        r is Ok ==> r->Ok_0@ == instrumented_text(Level::Warn, attr@, item@),
        r is Err ==> r->Err_0 is NotAFunction,
{
    instrument_item(Level::Warn, attr, item)
}

/// Error-level rewrite: severity tag `error`, no omit-arguments marker,
/// extra parameters passed through verbatim.
pub fn instrument_error_macro(attr: &str, item: &str) -> (r: Result<String, InstrumentError>)
    ensures
        r is Ok <==> is_fn_definition(item@),
        r is Ok ==> r->Ok_0@ == instrumented_text(Level::Error, attr@, item@),
        r is Err ==> r->Err_0 is NotAFunction,
{
    instrument_item(Level::Error, attr, item)
}

} // verus!
