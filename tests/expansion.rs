use calm_io::pipefail;
use calm_io::attribute::{expansion_source, unreadable};
use calm_io::transform::{expand_decl, is_result_type, outcome_type, render, rewrite, Attr, FnDecl, ReturnShape};
use proc_macro2::TokenStream;

fn tokens(s: &str) -> TokenStream {
    s.parse().unwrap()
}

fn expand(item: &str) -> String {
    pipefail(TokenStream::new(), tokens(item)).to_string()
}

// Printed token streams differ in spacing (`||` against `| |`), not in tokens.
fn squeezed(s: &str) -> String {
    tokens(s).to_string().chars().filter(|c| !c.is_whitespace()).collect()
}

fn same_tokens(a: &str, b: &str) -> bool {
    squeezed(a) == squeezed(b)
}

#[test]
fn function_with_result_type_is_rewritten() {
    let out = expand("fn run() -> io::Result<i32> { Ok(1) }");
    assert!(same_tokens(
        &out,
        "fn run() -> ::std::io::Result<()> { let res: io::Result<i32> = (|| { Ok(1) })(); \
         ::calm_io::suppress_broken_pipe(res) }"
    ));
}

#[test]
fn function_without_return_type_succeeds_with_its_unit_value() {
    let out = expand("fn main() { work() }");
    assert!(same_tokens(
        &out,
        "fn main() -> ::std::io::Result<()> { let res: ::std::io::Result<()> = \
         ::std::io::Result::Ok((|| { work() })()); \
         ::calm_io::suppress_broken_pipe(res) }"
    ));
}

#[test]
fn attributes_visibility_parameters_and_where_clause_are_kept() {
    let out = expand(
        "#[inline] #[allow(dead_code)] pub(crate) fn put<T>(x: T, n: u8) -> Result<T, io::Error> \
         where T: Copy { Ok(x) }",
    );
    assert!(same_tokens(
        &out,
        "#[inline] #[allow(dead_code)] pub(crate) fn put<T>(x: T, n: u8) -> ::std::io::Result<()> \
         where T: Copy { let res: Result<T, io::Error> = (|| { Ok(x) })(); \
         ::calm_io::suppress_broken_pipe(res) }"
    ));
}

#[test]
fn non_function_item_is_rejected() {
    let out = expand("struct S { a: u8 }");
    assert!(same_tokens(
        &out,
        "::core::compile_error! { \"pipefail is only applicable to functions\" }"
    ));
}

#[test]
fn rewriting_output_again_keeps_signature() {
    let once = expand("pub fn go() -> io::Result<u8> { Ok(3) }");
    assert!(same_tokens(
        &once,
        "pub fn go() -> ::std::io::Result<()> { let res: io::Result<u8> = (|| { Ok(3) })(); \
         ::calm_io::suppress_broken_pipe(res) }"
    ));
    let twice = expand(&once);
    assert!(same_tokens(
        &twice,
        "pub fn go() -> ::std::io::Result<()> { let res: ::std::io::Result<()> = (|| { \
         let res: io::Result<u8> = (|| { Ok(3) })(); ::calm_io::suppress_broken_pipe(res) })(); \
         ::calm_io::suppress_broken_pipe(res) }"
    ));
}

#[test]
fn outcome_type_of_each_shape() {
    assert_eq!(outcome_type(&ReturnShape::Default), "::std::io::Result<()>");
    assert_eq!(outcome_type(&ReturnShape::Type("u8".to_string())), "::std::io::Result< u8 >");
    assert_eq!(
        outcome_type(&ReturnShape::Type("io :: Result < i32 >".to_string())),
        "io :: Result < i32 >"
    );
}

#[test]
fn result_shape_is_recognised() {
    assert!(is_result_type("io :: Result < i32 >"));
    assert!(is_result_type("Result < T , io :: Error >"));
    assert!(is_result_type("::std::io::Result<()>"));
    assert!(is_result_type("Result<u8>"));
    assert!(!is_result_type("u8"));
    assert!(!is_result_type("Result"));
    assert!(!is_result_type("MyResult < T >"));
    assert!(!is_result_type("Results < T >"));
    assert!(!is_result_type("Vec < Result < u8 > >"));
}

#[test]
fn other_return_type_is_taken_as_success_value() {
    let out = expand("fn f() -> u8 { 3 }");
    assert!(same_tokens(
        &out,
        "fn f() -> ::std::io::Result<()> { let res: ::std::io::Result<u8> = \
         ::std::io::Result::Ok((|| { 3 })()); ::calm_io::suppress_broken_pipe(res) }"
    ));
}

#[test]
fn unreadable_message() {
    assert_eq!(unreadable(), "pipefail could not read back the rewritten function");
}

#[test]
fn original_broken_pipe_function_expands() {
    let out = expand(
        "fn pipe_machine_broke() -> io::Result<i32> { \
         Err(io::Error::new(io::ErrorKind::BrokenPipe, \"understandable, have a nice day\")) }",
    );
    assert!(same_tokens(
        &out,
        "fn pipe_machine_broke() -> ::std::io::Result<()> { let res: io::Result<i32> = (|| { \
         Err(io::Error::new(io::ErrorKind::BrokenPipe, \"understandable, have a nice day\")) \
         })(); ::calm_io::suppress_broken_pipe(res) }"
    ));
}

#[test]
fn original_other_error_function_expands() {
    let out = expand(
        "fn any_other_error() -> io::Result<i32> { \
         Err(io::Error::new(io::ErrorKind::UnexpectedEof, \"sudden truncation! oh no!\")) }",
    );
    assert!(same_tokens(
        &out,
        "fn any_other_error() -> ::std::io::Result<()> { let res: io::Result<i32> = (|| { \
         Err(io::Error::new(io::ErrorKind::UnexpectedEof, \"sudden truncation! oh no!\")) \
         })(); ::calm_io::suppress_broken_pipe(res) }"
    ));
}

#[test]
fn inner_attributes_stay_inside_the_body() {
    let out = expand("#[cold] fn f() -> io::Result<()> { #![allow(unused)] Ok(()) }");
    assert!(same_tokens(
        &out,
        "#[cold] fn f() -> ::std::io::Result<()> { #![allow(unused)] \
         let res: io::Result<()> = (|| { Ok(()) })(); ::calm_io::suppress_broken_pipe(res) }"
    ));
}

#[test]
fn expansion_source_is_the_text_of_the_rewrite() {
    let text = expansion_source(tokens("fn g() -> Result<u8, E> { x }"));
    assert!(same_tokens(
        &text,
        "fn g() -> ::std::io::Result<()> { let res: Result<u8, E> = (|| { x })(); \
         ::calm_io::suppress_broken_pipe(res) }"
    ));
    assert_eq!(
        expansion_source(tokens("const C: u8 = 1;")),
        "::core::compile_error! { \"pipefail is only applicable to functions\" }"
    );
}

fn sample() -> FnDecl {
    FnDecl {
        attrs: vec![
            Attr { inner: false, text: "#[a]".to_string() },
            Attr { inner: true, text: "#![c]".to_string() },
            Attr { inner: false, text: "#[b]".to_string() },
        ],
        vis: "pub".to_string(),
        head: "fn f(x: u8)".to_string(),
        output: ReturnShape::Type("R".to_string()),
        where_clause: String::new(),
        block: "{ x }".to_string(),
    }
}

#[test]
fn render_joins_parts() {
    assert_eq!(render(&sample()), "#[a] #![c] #[b] pub fn f(x: u8) -> R  { x }");
}

#[test]
fn rewrite_replaces_output_and_wraps_block() {
    let r = rewrite(sample());
    let texts: Vec<(bool, String)> = r.attrs.iter().map(|a| (a.inner, a.text.clone())).collect();
    assert_eq!(texts, vec![(false, "#[a]".to_string()), (false, "#[b]".to_string())]);
    assert_eq!(r.vis, "pub");
    assert_eq!(r.head, "fn f(x: u8)");
    assert!(matches!(&r.output, ReturnShape::Type(t) if t == "::std::io::Result<()>"));
    assert_eq!(
        r.block,
        "{ #![c] let res : ::std::io::Result< R > = ::std::io::Result::Ok ( ( || { x } ) ( ) ) ; \
         ::calm_io::suppress_broken_pipe ( res ) }"
    );
}

#[test]
fn expand_without_function_gives_rejection() {
    assert_eq!(
        expand_decl(None),
        "::core::compile_error! { \"pipefail is only applicable to functions\" }"
    );
    assert!(expand_decl(Some(sample())).contains("suppress_broken_pipe"));
}
