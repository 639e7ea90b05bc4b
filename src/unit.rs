use vstd::prelude::*;

verus! {

/// Unmangled name of the function that every unit defines; the loader resolves
/// exactly this symbol.
pub const ENTRY_SYMBOL: &'static str = "func";

/// Stem of the unit's source file. The compiler names the crate, and so the
/// module it writes, after it.
pub const UNIT_STEM: &'static str = "eval";

/// Source file name of a unit: `<stem>.rs`.
pub open spec fn source_file_spec() -> Seq<char> {
    UNIT_STEM@ + ".rs"@
}

/// File name of the loadable module built from a unit: `lib<stem>.so`.
pub open spec fn artifact_file_spec() -> Seq<char> {
    "lib"@ + UNIT_STEM@ + ".so"@
}

/// One parameter of a declared signature; both parts are opaque text.
#[derive(Clone, PartialEq, Eq, Debug)]
pub struct Param {
    pub name: String,
    pub ty: String,
}

/// A declared function signature: ordered parameters and a result type, all
/// opaque text handed to the compiler unchanged.
#[derive(Clone, PartialEq, Eq, Debug)]
pub struct Signature {
    pub params: Vec<Param>,
    pub ret: String,
}

/// `name: ty`
pub open spec fn param_text(p: Param) -> Seq<char> {
    p.name@ + ": "@ + p.ty@
}

/// The parameters, each as `name: ty`, separated by `, `.
pub open spec fn params_text(ps: Seq<Param>) -> Seq<char>
    decreases ps.len(),
{
    if ps.len() == 0 {
        Seq::empty()
    } else if ps.len() == 1 {
        param_text(ps[0])
    } else {
        params_text(ps.drop_last()) + ", "@ + param_text(ps.last())
    }
}

/// `(a: A, b: B) -> R`
pub open spec fn signature_text(s: Signature) -> Seq<char> {
    "("@ + params_text(s.params@) + ") -> "@ + s.ret@
}

/// The unit built around a body: the preamble verbatim, a no-mangle attribute,
/// then the entry function with the given signature and the body verbatim.
pub open spec fn unit_text(preamble: Seq<char>, signature: Seq<char>, body: Seq<char>) -> Seq<char> {
    preamble + "\n#[no_mangle]\n"@ + "pub fn "@ + ENTRY_SYMBOL@ + " "@ + signature + " { "@ + body
        + " } "@
}

/// What one evaluation asks for. Nothing in it is parsed or checked here: any
/// error in it is for the compiler to report.
#[derive(Clone, PartialEq, Eq, Debug)]
pub struct CompilationRequest {
    pub preamble: String,
    pub signature: Signature,
    pub body: String,
}

/// The unit text of a request.
pub open spec fn request_unit_text(r: CompilationRequest) -> Seq<char> {
    unit_text(r.preamble@, signature_text(r.signature), r.body@)
}

/// Arguments of the compiler for one unit: link the runtime dynamically, emit
/// a dynamically loadable module into `out_dir`, compile `source`.
pub open spec fn compiler_args_spec(out_dir: Seq<char>, source: Seq<char>) -> Seq<Seq<char>> {
    seq!["-C"@, "prefer-dynamic"@, "--crate-type"@, "dylib"@, "--out-dir"@, out_dir, source]
}

/// The source file name of a unit.
pub fn source_file_name() -> (r: String)
    ensures
        r@ == source_file_spec(),
{
    let mut r = String::from_str(UNIT_STEM);
    r.append(".rs");
    r
}

/// The file name of the module that the compiler writes for a unit.
pub fn artifact_file_name() -> (r: String)
    ensures
        r@ == artifact_file_spec(),
{
    let mut r = String::from_str("lib");
    r.append(UNIT_STEM);
    r.append(".so");
    r
}

/// Renders a signature as source text.
pub fn render_signature(sig: &Signature) -> (r: String)
    ensures
        r@ == signature_text(*sig),
{
    let mut r = String::from_str("(");
    let n = sig.params.len();
    let mut i: usize = 0;
    while i < n
        invariant
            n == sig.params@.len(),
            i <= n,
            r@ == "("@ + params_text(sig.params@.subrange(0, i as int)),
        decreases n - i,
    {
        let ghost before = sig.params@.subrange(0, i as int);
        let ghost after = sig.params@.subrange(0, i as int + 1);
        assert(after.drop_last() =~= before);
        assert(after.last() == sig.params@[i as int]);
        if i > 0 {
            r.append(", ");
        } else {
            assert(before.len() == 0);
        }
        let p = &sig.params[i];
        r.append(p.name.as_str());
        r.append(": ");
        r.append(p.ty.as_str());
        i = i + 1;
    }
    assert(sig.params@.subrange(0, n as int) =~= sig.params@);
    r.append(") -> ");
    r.append(sig.ret.as_str());
    r
}

/// Builds the text of a unit from a preamble, a signature and a body.
pub fn synthesize_unit(preamble: &str, signature: &str, body: &str) -> (r: String)
    ensures
        r@ == unit_text(preamble@, signature@, body@),
{
    let mut r = String::from_str(preamble);
    r.append("\n#[no_mangle]\n");
    r.append("pub fn ");
    r.append(ENTRY_SYMBOL);
    r.append(" ");
    r.append(signature);
    r.append(" { ");
    r.append(body);
    r.append(" } ");
    r
}

impl CompilationRequest {
    /// The unit that this request is compiled as.
    pub fn unit_text(&self) -> (r: String)
        ensures
            r@ == request_unit_text(*self),
    {
        let sig = render_signature(&self.signature);
        synthesize_unit(self.preamble.as_str(), sig.as_str(), self.body.as_str())
    }
}

/// The compiler's arguments for compiling `source` into `out_dir`.
pub fn compiler_args(out_dir: &str, source: &str) -> (r: Vec<String>)
    ensures
        r@.map_values(|a: String| a@) == compiler_args_spec(out_dir@, source@),
{
    let mut r: Vec<String> = Vec::new();
    r.push(String::from_str("-C"));
    r.push(String::from_str("prefer-dynamic"));
    r.push(String::from_str("--crate-type"));
    r.push(String::from_str("dylib"));
    r.push(String::from_str("--out-dir"));
    r.push(String::from_str(out_dir));
    r.push(String::from_str(source));
    assert(r@.map_values(|a: String| a@) =~= compiler_args_spec(out_dir@, source@));
    r
}

} // verus!
