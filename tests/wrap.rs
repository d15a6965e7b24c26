use function_wrapper::tokens::{is_ascii_str, is_valid_ascii_ident, is_valid_ident};
use function_wrapper::wrapped::{WrapError, WrappedFn};
use proc_macro2::TokenStream;
use quote::ToTokens;
use syn::parse::{ParseStream, Parser};

fn stream(src: &str) -> TokenStream {
    src.parse::<TokenStream>().unwrap()
}

fn wrapped(src: &str) -> WrappedFn {
    match WrappedFn::parse_tokens(stream(src)) {
        Ok(f) => f,
        Err(e) => panic!("not a function: {:?}", e),
    }
}

/// The function `src` as syn writes it.
fn canonical(src: &str) -> String {
    syn::parse_str::<syn::ItemFn>(src).unwrap().to_token_stream().to_string()
}

fn rendered(f: WrappedFn) -> String {
    match f.render() {
        Ok(ts) => ts.to_string(),
        Err(e) => panic!("render failed: {:?}", e),
    }
}

#[test]
fn it_works() {
    let mut f = wrapped("fn hello() -> bool { true }");
    f.set_pre_code(stream("let a = 1;"));
    f.set_post_code(stream("let b = 2;"));
    assert_eq!(
        rendered(f),
        canonical(
            "fn hello() -> bool { let a = 1; let mut wrapper = || { true }; \
             let result = wrapper(); let b = 2; result }"
        )
    );
}

#[test]
fn lib_it_works() {
    let mut f = wrapped(
        "fn hello() -> bool { println!(\"Hello there!\"); println!(\"This is some code.\"); true }",
    );
    f.set_pre_code(stream("println!(\"Hi at the start :)\");"));
    f.set_post_code(stream("println!(\"Hi at the end :)\");"));
    let out: TokenStream = TokenStream::from(f);
    assert_eq!(
        out.to_string(),
        canonical(
            "fn hello() -> bool { println!(\"Hi at the start :)\"); let mut wrapper = || { \
             println!(\"Hello there!\"); println!(\"This is some code.\"); true }; \
             let result = wrapper(); println!(\"Hi at the end :)\"); result }"
        )
    );
}

#[test]
fn no_fragments_is_identity() {
    let src = "#[inline] pub fn add(a: i32, b: i32) -> i32 { if a > b { return a; } a + b }";
    let f = wrapped(src);
    assert_eq!(rendered(f), canonical(src));
}

#[test]
fn pre_only_inlines_original_block() {
    let mut f = wrapped("fn f(x: i32) -> i32 { if x > 0 { return 1; } 2 }");
    f.set_pre_code(stream("let seen = x;"));
    assert_eq!(
        rendered(f),
        canonical("fn f(x: i32) -> i32 { let seen = x; { if x > 0 { return 1; } 2 } }")
    );
}

#[test]
fn post_only_wraps_body_in_closure() {
    let mut f = wrapped("fn f(x: i32) -> i32 { if x > 0 { return 1; } 2 }");
    f.set_post_code(stream("done();"));
    assert_eq!(
        rendered(f),
        canonical(
            "fn f(x: i32) -> i32 { let mut wrapper = || { if x > 0 { return 1; } 2 }; \
             let result = wrapper(); done(); result }"
        )
    );
}

#[test]
fn result_ident_changes_both_places() {
    let mut f = wrapped("fn f() -> u8 { 7 }");
    f.set_post_code(stream("log(out);"));
    f.set_result_ident("out");
    f.set_wrapper_ident("body");
    assert_eq!(
        rendered(f),
        canonical("fn f() -> u8 { let mut body = || { 7 }; let out = body(); log(out); out }")
    );
}

#[test]
fn default_identifiers() {
    let f = wrapped("fn f() {}");
    assert_eq!(f.wrapper_ident.to_string(), "wrapper");
    assert_eq!(f.result_ident.to_string(), "result");
    assert!(f.pre_code.is_none());
    assert!(f.post_code.is_none());
}

#[test]
fn fragments_are_spliced_verbatim() {
    let mut f = wrapped("fn f() { work(); }");
    f.set_pre_code(stream("let a = 1; let b = a + 1; first(b);"));
    f.set_post_code(stream("second(); let c = 3; third(c);"));
    assert_eq!(
        rendered(f),
        canonical(
            "fn f() { let a = 1; let b = a + 1; first(b); let mut wrapper = || { work(); }; \
             let result = wrapper(); second(); let c = 3; third(c); result }"
        )
    );
}

#[test]
fn removing_fragments_restores_identity() {
    let src = "fn f() -> i32 { 1 }";
    let mut f = wrapped(src);
    f.set_pre_code(stream("a();"));
    f.set_post_code(stream("b();"));
    f.remove_pre_code();
    f.remove_post_code();
    assert_eq!(rendered(f), canonical(src));
}

#[test]
fn remove_pre_keeps_post() {
    let mut f = wrapped("fn f() -> i32 { 1 }");
    f.set_pre_code(stream("a();"));
    f.set_post_code(stream("b();"));
    f.remove_pre_code();
    assert_eq!(
        rendered(f),
        canonical("fn f() -> i32 { let mut wrapper = || { 1 }; let result = wrapper(); b(); result }")
    );
}

#[test]
fn inner_attributes_stay_first_in_block() {
    let mut f = wrapped("fn f() { #![allow(unused)] let x = 1; }");
    f.set_pre_code(stream("a();"));
    assert_eq!(
        rendered(f),
        canonical("fn f() { #![allow(unused)] a(); { let x = 1; } }")
    );
}

#[test]
fn empty_input_fails() {
    match WrappedFn::parse_tokens(TokenStream::new()) {
        Err(WrapError::EmptyInput) => {}
        other => panic!("expected EmptyInput, got {:?}", other),
    }
}

#[test]
fn empty_input_message_through_syn() {
    match syn::parse2::<WrappedFn>(TokenStream::new()) {
        Err(e) => assert_eq!(e.to_string(), "expected function"),
        Ok(_) => panic!("an empty input was accepted"),
    }
}

#[test]
fn parse_through_syn() {
    let f = syn::parse2::<WrappedFn>(stream("fn g(a: u8) -> u8 { a }")).unwrap();
    assert_eq!(f.function.sig.ident.to_string(), "g");
}

#[test]
fn malformed_function_fails() {
    match WrappedFn::parse_tokens(stream("struct S;")) {
        Err(WrapError::MalformedFunction(_)) => {}
        other => panic!("expected MalformedFunction, got {:?}", other),
    }
}

#[test]
fn render_failure_is_reported() {
    let mut f = wrapped("fn f() {}");
    f.set_pre_code(stream("let"));
    match f.render() {
        Err(WrapError::RenderFailure(_)) => {}
        other => panic!("expected RenderFailure, got {:?}", other),
    }
}

#[test]
fn render_failure_becomes_compile_error_tokens() {
    let mut f = wrapped("fn f() {}");
    f.set_post_code(stream("let"));
    let out = TokenStream::from(f).to_string();
    assert!(out.contains("compile_error"));
}

#[test]
fn ident_validity() {
    assert!(is_valid_ident("wrapper"));
    assert!(is_valid_ident("_"));
    assert!(is_valid_ident("_tmp9"));
    assert!(is_valid_ident("été"));
    assert!(is_valid_ident("let"));
    assert!(!is_valid_ident(""));
    assert!(!is_valid_ident("9lives"));
    assert!(!is_valid_ident("a-b"));
    assert!(!is_valid_ident("a b"));
}

#[test]
fn try_set_idents() {
    let mut f = wrapped("fn f() -> u8 { 1 }");
    assert!(!f.try_set_wrapper_ident("not valid"));
    assert!(!f.try_set_result_ident("1x"));
    assert!(!f.try_set_result_ident("été"));
    assert_eq!(f.wrapper_ident.to_string(), "wrapper");
    assert_eq!(f.result_ident.to_string(), "result");
    assert!(f.try_set_wrapper_ident("inner"));
    assert!(f.try_set_result_ident("value"));
    assert_eq!(f.wrapper_ident.to_string(), "inner");
    assert_eq!(f.result_ident.to_string(), "value");
}

#[test]
fn return_descriptor_of_unit_function() {
    let f = wrapped("fn f() { work(); }");
    assert!(matches!(f.return_descriptor(), function_wrapper::ReturnDescriptor::NoReturn));
}

#[test]
fn return_descriptor_of_typed_function() {
    let f = wrapped("fn f() -> Vec<u8> { Vec::new() }");
    match f.return_descriptor() {
        function_wrapper::ReturnDescriptor::ExplicitType(t) => {
            assert_eq!(t.to_string(), stream("Vec<u8>").to_string())
        }
        other => panic!("expected a type, got {:?}", other),
    }
}

#[test]
fn errors_become_syn_errors() {
    let empty = WrapError::EmptyInput.into_syn_error();
    assert_eq!(empty.to_string(), "expected function");
    match WrappedFn::parse_tokens(stream("struct S;")) {
        Err(e) => assert!(!e.into_syn_error().to_string().is_empty()),
        Ok(_) => panic!("a struct was read as a function"),
    }
}

#[test]
fn attributes_and_visibility_are_kept() {
    let mut f = wrapped("#[must_use] pub(crate) fn f<T: Copy>(t: T) -> T where T: Default { t }");
    f.set_post_code(stream("drop(0);"));
    assert_eq!(
        rendered(f),
        canonical(
            "#[must_use] pub(crate) fn f<T: Copy>(t: T) -> T where T: Default { \
             let mut wrapper = || { t }; let result = wrapper(); drop(0); result }"
        )
    );
}

#[test]
fn ascii_ident_validity() {
    assert!(is_ascii_str("plain_text 1"));
    assert!(!is_ascii_str("café"));
    assert!(is_valid_ascii_ident("value_2"));
    assert!(!is_valid_ascii_ident("été"));
    assert!(!is_valid_ascii_ident("2value"));
    assert!(!is_valid_ascii_ident(""));
}

#[test]
fn empty_input_error_message() {
    match WrappedFn::parse_tokens(TokenStream::new()) {
        Err(e) => assert_eq!(e.into_syn_error().to_string(), "expected function"),
        Ok(_) => panic!("an empty input was accepted"),
    }
}

#[test]
fn parse_leaves_tokens_after_the_function() {
    let reader = |input: ParseStream| -> syn::Result<(WrappedFn, TokenStream)> {
        let f: WrappedFn = input.parse()?;
        let rest: TokenStream = input.parse()?;
        Ok((f, rest))
    };
    let (f, rest) = reader.parse2(stream("fn g() {} struct After;")).unwrap();
    assert_eq!(f.function.sig.ident.to_string(), "g");
    assert_eq!(rest.to_string(), stream("struct After;").to_string());
}
