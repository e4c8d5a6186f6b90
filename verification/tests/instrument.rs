use instrument_level::instrument::{
    instrument_debug_macro, instrument_error_macro, instrument_info_macro, instrument_trace_macro,
    instrument_warn_macro, InstrumentError,
};

const SUM_FN: &str = "fn sum(a: i32, b: i32) -> i32 { a + b }";

#[test]
fn debug_sum_no_extra_params() {
    let out = instrument_debug_macro("", SUM_FN).unwrap();
    assert_eq!(
        out,
        "#[::tracing::instrument(level = \"debug\", )]\nfn sum(a: i32, b: i32) -> i32 { a + b }"
    );
    assert!(out.ends_with(SUM_FN));
}

#[test]
fn trace_sum_with_custom_name() {
    let out = instrument_trace_macro("name = \"my_span\"", SUM_FN).unwrap();
    assert_eq!(
        out,
        "#[::tracing::instrument(level = \"trace\", skip_all, name = \"my_span\")]\nfn sum(a: i32, b: i32) -> i32 { a + b }"
    );
}

#[test]
fn trace_exact_output() {
    let out = instrument_trace_macro("", "fn f() {}").unwrap();
    assert_eq!(
        out,
        "#[::tracing::instrument(level = \"trace\", skip_all, )]\nfn f() {}"
    );
}

#[test]
fn debug_exact_output() {
    let out = instrument_debug_macro("", "fn f() {}").unwrap();
    assert_eq!(out, "#[::tracing::instrument(level = \"debug\", )]\nfn f() {}");
}

#[test]
fn info_exact_output() {
    let out = instrument_info_macro("", "fn f() {}").unwrap();
    assert_eq!(out, "#[::tracing::instrument(level = \"info\", )]\nfn f() {}");
}

#[test]
fn warn_exact_output() {
    let out = instrument_warn_macro("", "fn f() {}").unwrap();
    assert_eq!(out, "#[::tracing::instrument(level = \"warn\", )]\nfn f() {}");
}

#[test]
fn error_exact_output() {
    let out = instrument_error_macro("", "fn f() {}").unwrap();
    assert_eq!(out, "#[::tracing::instrument(level = \"error\", )]\nfn f() {}");
}

#[test]
fn non_trace_levels_do_not_add_skip_all() {
    for out in [
        instrument_debug_macro("", SUM_FN).unwrap(),
        instrument_info_macro("", SUM_FN).unwrap(),
        instrument_warn_macro("", SUM_FN).unwrap(),
        instrument_error_macro("", SUM_FN).unwrap(),
    ] {
        assert!(!out.contains("skip_all"));
    }
}

#[test]
fn caller_supplied_skip_all_passes_through() {
    let out = instrument_debug_macro("skip_all", SUM_FN).unwrap();
    assert_eq!(
        out,
        "#[::tracing::instrument(level = \"debug\", skip_all)]\nfn sum(a: i32, b: i32) -> i32 { a + b }"
    );
}

#[test]
fn params_appear_verbatim_in_order() {
    let params = "target = \"app::core\", name = \"span_name\", skip(a)";
    let out = instrument_info_macro(params, SUM_FN).unwrap();
    assert_eq!(
        out,
        "#[::tracing::instrument(level = \"info\", target = \"app::core\", name = \"span_name\", skip(a))]\nfn sum(a: i32, b: i32) -> i32 { a + b }"
    );
}

#[test]
fn function_text_is_preserved_verbatim() {
    let items = [
        "fn f() {}",
        "pub async fn fetch(url: String) -> Result<u8, u8> { Err(0) }",
        "#[inline]\nfn tiny(x: u64) -> u64 { x }",
        "fn generic<T: Clone>(t: &T) -> T { t.clone() }",
    ];
    for item in items {
        let out = instrument_trace_macro("", item).unwrap();
        assert!(out.ends_with(item));
        let out = instrument_warn_macro("level = \"ignored\"", item).unwrap();
        assert!(out.ends_with(item));
    }
}

#[test]
fn non_function_input_is_rejected() {
    let not_functions = [
        "struct S { a: i32 }",
        "const X: i32 = 1;",
        "1 + 2",
        "",
        "trait T { fn f(&self); }",
        "fn broken( {",
    ];
    for item in not_functions {
        assert_eq!(instrument_trace_macro("", item), Err(InstrumentError::NotAFunction));
        assert_eq!(instrument_debug_macro("", item), Err(InstrumentError::NotAFunction));
        assert_eq!(instrument_info_macro("", item), Err(InstrumentError::NotAFunction));
        assert_eq!(instrument_warn_macro("", item), Err(InstrumentError::NotAFunction));
        assert_eq!(instrument_error_macro("", item), Err(InstrumentError::NotAFunction));
    }
}

#[test]
fn emitted_text_parses_as_annotated_function() {
    let out = instrument_debug_macro("name = \"adding\"", SUM_FN).unwrap();
    let parsed = syn::parse_str::<syn::ItemFn>(&out).unwrap();
    assert_eq!(parsed.attrs.len(), 1);
    assert!(parsed.sig.ident == "sum");
    assert_eq!(parsed.sig.inputs.len(), 2);
}

#[test]
fn pre_existing_annotations_are_kept() {
    let item = "#[inline]\n#[must_use]\nfn f(x: u64) -> u64 { x }";
    let out = instrument_error_macro("", item).unwrap();
    let parsed = syn::parse_str::<syn::ItemFn>(&out).unwrap();
    assert_eq!(parsed.attrs.len(), 3);
    assert!(out.ends_with(item));
}
