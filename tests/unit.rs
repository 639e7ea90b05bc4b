use defmacro::unit::{
    artifact_file_name, compiler_args, render_signature, source_file_name, synthesize_unit,
    CompilationRequest, Param, Signature, ENTRY_SYMBOL,
};

fn sig(params: &[(&str, &str)], ret: &str) -> Signature {
    Signature {
        params: params
            .iter()
            .map(|(n, t)| Param { name: n.to_string(), ty: t.to_string() })
            .collect(),
        ret: ret.to_string(),
    }
}

fn request(params: &[(&str, &str)], ret: &str, body: &str) -> CompilationRequest {
    CompilationRequest { preamble: String::new(), signature: sig(params, ret), body: body.to_string() }
}

#[test]
fn test_eval() {
    let zero = request(&[], "u32", "0u32");
    assert_eq!(zero.unit_text(), "\n#[no_mangle]\npub fn func () -> u32 { 0u32 } ");

    let sum = request(&[], "u32", "let mut x = 0; for i in 0..10 { x += i; } x");
    assert_eq!(
        sum.unit_text(),
        "\n#[no_mangle]\npub fn func () -> u32 { let mut x = 0; for i in 0..10 { x += i; } x } "
    );

    let no_ret_one_arg = request(&[("a", "u32")], "()", "let mut x = a; for i in 0..10 { x += i; }");
    assert_eq!(
        no_ret_one_arg.unit_text(),
        "\n#[no_mangle]\npub fn func (a: u32) -> () { let mut x = a; for i in 0..10 { x += i; } } "
    );

    let two_args = request(&[("a", "u32"), ("b", "u32")], "u32", "a + b");
    assert_eq!(two_args.unit_text(), "\n#[no_mangle]\npub fn func (a: u32, b: u32) -> u32 { a + b } ");
}

#[test]
fn signature_without_parameters() {
    assert_eq!(render_signature(&sig(&[], "u32")), "() -> u32");
}

#[test]
fn signature_with_three_parameters() {
    let s = sig(&[("a", "u32"), ("b", "&str"), ("c", "Vec<u8>")], "bool");
    assert_eq!(render_signature(&s), "(a: u32, b: &str, c: Vec<u8>) -> bool");
}

#[test]
fn unit_keeps_preamble_and_body_verbatim() {
    let text = synthesize_unit("use std::fmt;", "(x: i64) -> i64", "x * 2");
    assert_eq!(text, "use std::fmt;\n#[no_mangle]\npub fn func (x: i64) -> i64 { x * 2 } ");
    assert!(text.contains(&format!("pub fn {} ", ENTRY_SYMBOL)));
}

#[test]
fn unit_of_empty_parts() {
    assert_eq!(synthesize_unit("", "", ""), "\n#[no_mangle]\npub fn func  {  } ");
}

#[test]
fn file_names_follow_the_stem() {
    assert_eq!(source_file_name(), "eval.rs");
    assert_eq!(artifact_file_name(), "libeval.so");
}

#[test]
fn compiler_arguments_are_fixed() {
    let args = compiler_args("/tmp/ws", "/tmp/ws/eval.rs");
    assert_eq!(
        args,
        vec!["-C", "prefer-dynamic", "--crate-type", "dylib", "--out-dir", "/tmp/ws", "/tmp/ws/eval.rs"]
    );
}
