use vstd::prelude::*;

use crate::error::{message_of, EvalError};
use crate::table::MacroTable;
use crate::unit::{CompilationRequest, Param, Signature};

verus! {

/// One operand token-tree of a macro invocation, as the host compiler hands it
/// over: an identifier, a comma, or any other tree carried as the source text
/// that the host's printer gives for it.
#[derive(Clone, PartialEq, Eq, Debug)]
pub enum TokenTree {
    Ident(String),
    Comma,
    Other(String),
}

/// The source text of a token-tree.
pub open spec fn tree_text(t: TokenTree) -> Seq<char> {
    match t {
        TokenTree::Ident(s) => s@,
        TokenTree::Comma => ","@,
        TokenTree::Other(s) => s@,
    }
}

/// The message reported for operands that are not `name, body`.
pub const BAD_ARGUMENTS: &'static str = "bad arguments";

/// Name and body text of a macro definition whose operands have the shape
/// "identifier, comma, one token-tree"; none for any other shape.
pub open spec fn definition_shape(args: Seq<TokenTree>) -> Option<(Seq<char>, Seq<char>)> {
    if args.len() == 3 && args[1] is Comma {
        match args[0] {
            TokenTree::Ident(name) => Some((name@, tree_text(args[2]))),
            _ => None,
        }
    } else {
        None
    }
}

/// The name that a well-shaped definition defines.
pub open spec fn defined_name(args: Seq<TokenTree>) -> Seq<char> {
    match definition_shape(args) {
        Some((name, _)) => name,
        None => Seq::empty(),
    }
}

/// A well-shaped macro definition: the new macro's name and the source text of
/// its expansion routine's body.
#[derive(Clone, PartialEq, Eq, Debug)]
pub struct MacroDefinition {
    pub name: String,
    pub body: String,
}

/// The source text of a token-tree.
pub fn render_tree(t: &TokenTree) -> (r: String)
    ensures
        r@ == tree_text(*t),
{
    match t {
        TokenTree::Ident(s) => s.clone(),
        TokenTree::Comma => String::from_str(","),
        TokenTree::Other(s) => s.clone(),
    }
}

/// Reads the operands of a macro definition. On any shape but
/// "identifier, comma, one token-tree" it gives the message to report, and
/// nothing is to be registered.
pub fn parse_definition(args: &Vec<TokenTree>) -> (r: Result<MacroDefinition, String>)
    ensures
        match definition_shape(args@) {
            Some((name, body)) => r matches Ok(d) && d.name@ == name && d.body@ == body,
            None => r matches Err(msg) && msg@ == BAD_ARGUMENTS@,
        },
{
    if args.len() == 3 {
        if let TokenTree::Comma = &args[1] {
            if let TokenTree::Ident(name) = &args[0] {
                return Ok(MacroDefinition { name: name.clone(), body: render_tree(&args[2]) });
            }
        }
    }
    Err(String::from_str(BAD_ARGUMENTS))
}

/// The preamble of every expansion routine's unit: it makes the host compiler's
/// own crates reachable from the routine.
pub const EXPANDER_PREAMBLE: &'static str = "\n    #![feature(rustc_private)]\n    #![feature(slice_patterns)]\n    extern crate syntax;\n    extern crate rustc;\n    ";

/// The signature of an expansion routine: expansion context, source location
/// and operand token-trees in, macro result out.
pub open spec fn expander_signature_spec(s: Signature) -> bool {
    &&& s.params@.len() == 3
    &&& s.params@[0].name@ == "cx"@ && s.params@[0].ty@ == "&mut syntax::ext::base::ExtCtxt"@
    &&& s.params@[1].name@ == "sp"@ && s.params@[1].ty@ == "syntax::codemap::Span"@
    &&& s.params@[2].name@ == "args"@ && s.params@[2].ty@ == "&[syntax::ast::TokenTree]"@
    &&& s.ret@ == "Box<syntax::ext::base::MacResult + 'static>"@
}

fn text_param(name: &str, ty: &str) -> (p: Param)
    ensures
        p.name@ == name@,
        p.ty@ == ty@,
{
    Param { name: String::from_str(name), ty: String::from_str(ty) }
}

/// The fixed signature of an expansion routine.
pub fn expander_signature() -> (s: Signature)
    ensures
        expander_signature_spec(s),
{
    let mut params: Vec<Param> = Vec::new();
    params.push(text_param("cx", "&mut syntax::ext::base::ExtCtxt"));
    params.push(text_param("sp", "syntax::codemap::Span"));
    params.push(text_param("args", "&[syntax::ast::TokenTree]"));
    Signature { params, ret: String::from_str("Box<syntax::ext::base::MacResult + 'static>") }
}

impl MacroDefinition {
    /// The request that compiles this definition's expansion routine. The
    /// preamble is the host's: it makes the host compiler's types reachable
    /// from the unit.
    pub fn expander_request(&self, preamble: &str) -> (r: CompilationRequest)
        ensures
            r.preamble@ == preamble@,
            expander_signature_spec(r.signature),
            r.body@ == self.body@,
    {
        CompilationRequest {
            preamble: String::from_str(preamble),
            signature: expander_signature(),
            body: self.body.clone(),
        }
    }
}

impl MacroDefinition {
    /// The request that compiles this definition's expansion routine with the
    /// fixed expander preamble.
    pub fn routine_request(&self) -> (r: CompilationRequest)
        ensures
            r.preamble@ == EXPANDER_PREAMBLE@,
            expander_signature_spec(r.signature),
            r.body@ == self.body@,
    {
        self.expander_request(EXPANDER_PREAMBLE)
    }
}

/// The table after a registration of `name` with the outcome of compiling its
/// routine: the routine is installed on success; on failure nothing changes.
pub open spec fn installed<R>(t: Map<Seq<char>, R>, name: Seq<char>, compiled: Result<R, EvalError>) -> Map<
    Seq<char>,
    R,
> {
    match compiled {
        Ok(f) => t.insert(name, f),
        Err(_) => t,
    }
}

/// The table after one whole `defmacro!` event: operands, then (for a
/// well-shaped definition) the outcome of compiling the routine.
pub open spec fn after_definition<R>(
    t: Map<Seq<char>, R>,
    args: Seq<TokenTree>,
    compiled: Result<R, EvalError>,
) -> Map<Seq<char>, R> {
    match definition_shape(args) {
        Some((name, _)) => installed(t, name, compiled),
        None => t,
    }
}

/// Installs a compiled routine under the definition's name. On a failed build
/// nothing is installed, and the message to report is returned: the compiler's
/// diagnostic verbatim, or the generic internal-error message.
pub fn register_definition<R>(
    table: &mut MacroTable<R>,
    definition: &MacroDefinition,
    compiled: Result<R, EvalError>,
) -> (r: Option<String>)
    ensures
        final(table)@ == installed(old(table)@, definition.name@, compiled),
        match compiled {
            Ok(_) => r is None,
            Err(e) => r matches Some(msg) && msg@ == message_of(e),
        },
{
    match compiled {
        Ok(f) => {
            table.insert(definition.name.clone(), f);
            None
        },
        Err(e) => Some(String::from_str(e.message())),
    }
}

/// A `defmacro!` event defines a name only when its operands are well shaped
/// and its routine compiled: a malformed definition, or one that the compiler
/// rejects, leaves every name that was undefined still undefined, and every
/// other name as it was.
pub proof fn lemma_failed_definition_defines_nothing<R>(
    t: Map<Seq<char>, R>,
    args: Seq<TokenTree>,
    compiled: Result<R, EvalError>,
)
    requires
        definition_shape(args) is None || compiled is Err,
    ensures
        after_definition(t, args, compiled) == t,
{
}

/// A successful `defmacro!` defines exactly its name, with the new routine, and
/// leaves every other name as it was; a later definition of the same name wins.
pub proof fn lemma_definition_last_write_wins<R>(
    t: Map<Seq<char>, R>,
    args1: Seq<TokenTree>,
    f1: R,
    args2: Seq<TokenTree>,
    f2: R,
    other: Seq<char>,
)
    requires
        definition_shape(args1) is Some,
        definition_shape(args2) is Some,
        defined_name(args1) == defined_name(args2),
        other != defined_name(args1),
    ensures
        after_definition(after_definition(t, args1, Ok::<R, EvalError>(f1)), args2, Ok::<R, EvalError>(f2))
            == t.insert(defined_name(args1), f2),
        after_definition(t, args1, Ok::<R, EvalError>(f1))[defined_name(args1)] == f1,
        after_definition(t, args1, Ok::<R, EvalError>(f1)).contains_key(other) == t.contains_key(other),
        t.contains_key(other) ==> after_definition(t, args1, Ok::<R, EvalError>(f1))[other] == t[other],
{
    let name = defined_name(args1);
    assert(t.insert(name, f1).insert(name, f2) =~= t.insert(name, f2));
}

} // verus!
