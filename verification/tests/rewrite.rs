use function_ai::function_ai;
use function_ai::rewrite_function;

#[test]
fn add_scenario_returns_reprint_not_sum() {
    let src = "fn add(a: i32, b: i32) -> i32 { a + b }";
    let out = rewrite_function(src).unwrap();
    assert_eq!(
        out,
        "pub fn add(a : i32 , b : i32) -> &'static str { \"fn add (a : i32 , b : i32) -> i32 { a + b }\" }"
    );
}

#[test]
fn generic_parameter_is_kept_in_signature() {
    let src = "fn first<T>(value: T) -> T { value }";
    let out = rewrite_function(src).unwrap();
    assert_eq!(
        out,
        "pub fn first< T >(value : T) -> &'static str { \"fn first < T > (value : T) -> T { value }\" }"
    );
    assert!(out.starts_with("pub fn first< T >("));
}

#[test]
fn empty_body_and_no_parameters() {
    let out = rewrite_function("fn nothing() {}").unwrap();
    assert_eq!(out, "pub fn nothing() -> &'static str { \"fn nothing () { }\" }");
}

#[test]
fn quotes_in_body_are_escaped_in_the_literal() {
    let src = "fn greet() -> &'static str { \"hi\" }";
    let out = rewrite_function(src).unwrap();
    assert_eq!(
        out,
        "pub fn greet() -> &'static str { \"fn greet () -> & 'static str { \\\"hi\\\" }\" }"
    );
}

#[test]
fn doc_comment_is_captured_in_the_reprint() {
    let src = "/// doubles\nfn twice(x: u64) -> u64 { x * 2 }";
    let out = rewrite_function(src).unwrap();
    assert_eq!(
        out,
        "pub fn twice(x : u64) -> &'static str { \"# [doc = \\\" doubles\\\"] fn twice (x : u64) -> u64 { x * 2 }\" }"
    );
}

#[test]
fn same_input_twice_gives_identical_output() {
    let src = "fn add(a: i32, b: i32) -> i32 { a + b }";
    let first = rewrite_function(src).unwrap();
    let second = rewrite_function(src).unwrap();
    assert_eq!(first, second);
}

#[test]
fn formatting_of_the_source_does_not_change_the_output() {
    let compact = "fn add(a: i32, b: i32) -> i32 { a + b }";
    let spread = "fn add(a: i32,\n       b: i32) -> i32 {\n    a + b\n}";
    assert_eq!(
        rewrite_function(compact).unwrap(),
        rewrite_function(spread).unwrap()
    );
}

#[test]
fn bodies_differ_signatures_do_not() {
    let out1 = rewrite_function("fn pick(x: u8) -> u8 { x }").unwrap();
    let out2 = rewrite_function("fn pick(x: u8) -> u8 { 7 }").unwrap();
    let sig = "pub fn pick(x : u8) -> &'static str { ";
    assert!(out1.starts_with(sig));
    assert!(out2.starts_with(sig));
    assert_ne!(out1, out2);
}

#[test]
fn struct_definition_is_rejected() {
    let err = rewrite_function("struct S;").unwrap_err();
    assert!(!err.message.is_empty());
}

#[test]
fn unbalanced_braces_are_rejected() {
    let err = rewrite_function("fn broken( {").unwrap_err();
    assert!(!err.message.is_empty());
}

#[test]
fn bare_expression_is_rejected() {
    let err = rewrite_function("1 + 2").unwrap_err();
    assert!(!err.message.is_empty());
}

#[test]
fn annotation_arguments_do_not_affect_the_output() {
    let src = "fn add(a: i32, b: i32) -> i32 { a + b }";
    let with_flag = function_ai("dummy_flag", src).unwrap();
    let without = function_ai("", src).unwrap();
    assert_eq!(with_flag, without);
    assert_eq!(with_flag, rewrite_function(src).unwrap());
}

#[test]
fn annotation_arguments_do_not_cause_failure_on_valid_items() {
    let src = "fn nothing() {}";
    assert!(function_ai("some = tokens, here", src).is_ok());
}

#[test]
fn output_is_not_the_raw_input() {
    let src = "fn add(a: i32, b: i32) -> i32 { a + b }";
    let out = rewrite_function(src).unwrap();
    assert_ne!(out, src);
}
