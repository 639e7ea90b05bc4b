use defmacro::bridge::{
    expander_signature, parse_definition, register_definition, render_tree, MacroDefinition,
    TokenTree, BAD_ARGUMENTS,
};
use defmacro::table::MacroTable;
use defmacro::unit::render_signature;
use defmacro::EvalError;

fn ident(s: &str) -> TokenTree {
    TokenTree::Ident(s.to_string())
}

fn tree(s: &str) -> TokenTree {
    TokenTree::Other(s.to_string())
}

#[test]
fn well_shaped_definition_is_read() {
    let args = vec![ident("rn"), TokenTree::Comma, tree("{ 1 }")];
    assert_eq!(
        parse_definition(&args),
        Ok(MacroDefinition { name: "rn".to_string(), body: "{ 1 }".to_string() })
    );
}

#[test]
fn body_may_be_a_single_identifier() {
    let args = vec![ident("m"), TokenTree::Comma, ident("x")];
    assert_eq!(
        parse_definition(&args),
        Ok(MacroDefinition { name: "m".to_string(), body: "x".to_string() })
    );
}

#[test]
fn malformed_definitions_are_rejected() {
    let missing_comma = vec![ident("rn"), tree("{ 1 }")];
    let not_an_ident = vec![tree("(rn)"), TokenTree::Comma, tree("{ 1 }")];
    let trailing = vec![ident("rn"), TokenTree::Comma, tree("{ 1 }"), TokenTree::Comma];
    let no_body = vec![ident("rn"), TokenTree::Comma];
    for args in [missing_comma, not_an_ident, trailing, no_body, Vec::new()] {
        assert_eq!(parse_definition(&args), Err(BAD_ARGUMENTS.to_string()));
    }
}

#[test]
fn malformed_definition_leaves_name_undefined() {
    let mut table: MacroTable<u32> = MacroTable::new();
    let args = vec![ident("rn"), tree("{ 1 }")];
    if let Ok(d) = parse_definition(&args) {
        register_definition(&mut table, &d, Ok(1));
    }
    assert!(!table.contains(&"rn".to_string()));
}

#[test]
fn trees_render_as_source_text() {
    assert_eq!(render_tree(&TokenTree::Comma), ",");
    assert_eq!(render_tree(&ident("MMXV")), "MMXV");
    assert_eq!(render_tree(&tree("{ a + b }")), "{ a + b }");
}

#[test]
fn expander_request_has_the_fixed_signature() {
    let d = MacroDefinition { name: "rn".to_string(), body: "{ 1 }".to_string() };
    let r = d.expander_request("// host crates");
    assert_eq!(r.preamble, "// host crates");
    assert_eq!(r.body, "{ 1 }");
    assert_eq!(r.signature, expander_signature());
    assert_eq!(
        render_signature(&r.signature),
        "(cx: &mut syntax::ext::base::ExtCtxt, sp: syntax::codemap::Span, args: &[syntax::ast::TokenTree]) -> Box<syntax::ext::base::MacResult + 'static>"
    );
}

#[test]
fn registering_rn_installs_its_routine() {
    let mut table: MacroTable<u32> = MacroTable::new();
    let d = parse_definition(&vec![ident("rn"), TokenTree::Comma, tree("{ 2015 }")]).unwrap();
    assert_eq!(register_definition(&mut table, &d, Ok(2015)), None);
    assert_eq!(table.get(&"rn".to_string()), Some(&2015));
}

#[test]
fn failed_compile_reports_and_installs_nothing() {
    let mut table: MacroTable<u32> = MacroTable::new();
    let d = MacroDefinition { name: "rn".to_string(), body: "{".to_string() };
    let msg = register_definition(&mut table, &d, Err(EvalError::CompileError("error: unclosed delimiter".to_string())));
    assert_eq!(msg, Some("error: unclosed delimiter".to_string()));
    assert!(!table.contains(&"rn".to_string()));
    let msg = register_definition(&mut table, &d, Err(EvalError::InternalError));
    assert_eq!(msg, Some("internal error".to_string()));
    assert_eq!(table.get(&"rn".to_string()), None);
}

#[test]
fn failed_redefinition_keeps_the_old_routine() {
    let mut table: MacroTable<u32> = MacroTable::new();
    let d = MacroDefinition { name: "rn".to_string(), body: "{ 1 }".to_string() };
    register_definition(&mut table, &d, Ok(1));
    register_definition(&mut table, &d, Err(EvalError::InternalError));
    assert_eq!(table.get(&"rn".to_string()), Some(&1));
}

#[test]
fn routine_request_uses_the_fixed_preamble() {
    let d = MacroDefinition { name: "rn".to_string(), body: "{ 1 }".to_string() };
    let r = d.routine_request();
    assert_eq!(
        r.preamble,
        "\n    #![feature(rustc_private)]\n    #![feature(slice_patterns)]\n    extern crate syntax;\n    extern crate rustc;\n    "
    );
    assert_eq!(r.preamble, defmacro::bridge::EXPANDER_PREAMBLE);
    assert_eq!(r.signature, expander_signature());
    assert_eq!(r.body, "{ 1 }");
}
