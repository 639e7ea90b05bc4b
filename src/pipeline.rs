use vstd::prelude::*;

use crate::error::EvalError;
use vstd::utf8::{decode_utf8, valid_utf8};
use crate::unit::{
    Param, artifact_file_name, params_text, param_text, artifact_file_spec, compiler_args, compiler_args_spec, source_file_name,
    source_file_spec, CompilationRequest, request_unit_text, ENTRY_SYMBOL,
};

verus! {

/// What `String::from_utf8_lossy` makes of a byte string.
pub uninterp spec fn utf8_lossy(b: Seq<u8>) -> Seq<char>;

/// Every byte is below 128.
pub open spec fn all_ascii(b: Seq<u8>) -> bool {
    forall|i: int| 0 <= i < b.len() ==> b[i] < 128
}

/// Relies on `String::from_utf8_lossy`: valid UTF-8 (in particular ASCII) is
/// decoded as it stands, and each invalid sequence becomes U+FFFD, so the text is
/// empty exactly when the bytes are.
#[verifier::external_body]
fn decode_lossy(b: &[u8]) -> (r: String)
    ensures
        r@ == utf8_lossy(b@),
        valid_utf8(b@) ==> r@ == decode_utf8(b@),
        r@.len() == 0 <==> b@.len() == 0,
        all_ascii(b@) ==> r@.len() == b@.len() && forall|i: int|
            0 <= i < b@.len() ==> #[trigger] (r@[i] as u32) == b@[i] as u32,
{
    String::from_utf8_lossy(b).into_owned()
}

/// The diagnostic of a compiler run that failed: its standard error, decoded so
/// that bytes that are not UTF-8 cannot stop the report.
pub fn diagnostic_text(stderr: &[u8]) -> (r: String)
    ensures
        r@ == utf8_lossy(stderr@),
        valid_utf8(stderr@) ==> r@ == decode_utf8(stderr@),
        r@.len() == 0 <==> stderr@.len() == 0,
        all_ascii(stderr@) ==> r@.len() == stderr@.len() && forall|i: int|
            0 <= i < stderr@.len() ==> #[trigger] (r@[i] as u32) == stderr@[i] as u32,
{
    decode_lossy(stderr)
}

/// A path inside the workspace directory.
pub open spec fn workspace_file(dir: Seq<char>, name: Seq<char>) -> Seq<char> {
    dir + "/"@ + name
}

/// Where a build stands. `Finished` and `Failed` are final.
#[derive(Clone, Copy, PartialEq, Eq, Debug, Structural)]
pub enum BuildPhase {
    /// Waiting for a fresh workspace directory.
    CreatingWorkspace,
    /// Waiting for the unit to be written into the workspace.
    WritingSource,
    /// Waiting for the compiler to exit.
    Compiling,
    /// Waiting for the built module to be opened.
    Opening,
    /// The module is open; waiting for its entry symbol.
    Resolving,
    /// The module is open and its entry symbol found; the workspace may go.
    Finished,
    /// The build stopped on an error; the workspace may go.
    Failed,
}

/// The outcome of the last action, as the caller saw it.
#[derive(Clone, PartialEq, Eq, Debug)]
pub enum BuildEvent {
    /// A workspace directory was created at this path.
    WorkspaceCreated(String),
    /// The unit was written.
    SourceWritten,
    /// The compiler ran to its end.
    CompilerExited { success: bool, stderr: Vec<u8> },
    /// The module was opened (and is kept open by the caller).
    ModuleOpened,
    /// The entry symbol was found in the open module.
    SymbolResolved,
    /// The last action could not be carried out: an I/O error, a compiler that
    /// could not be launched, a module that would not open, a missing symbol.
    StepFailed,
}

/// What the caller is to do next.
#[derive(Clone, PartialEq, Eq, Debug)]
pub enum BuildAction {
    /// Write `text` to the file at `path`.
    WriteSource { path: String, text: String },
    /// Run the compiler with these arguments and wait for it to exit.
    RunCompiler { args: Vec<String> },
    /// Open the loadable module at `path`.
    OpenModule { path: String },
    /// Look up the symbol `name` in the open module.
    ResolveSymbol { name: String },
    /// Done: bind the symbol, then release the workspace.
    Finish,
    /// Stop with this error and release the workspace.
    Abort(EvalError),
}

/// The phase that follows `p` on event `e`. Any event that the phase does not
/// wait for, and every event after a final phase, fails the build.
pub open spec fn next_phase(p: BuildPhase, e: BuildEvent) -> BuildPhase {
    match (p, e) {
        (BuildPhase::CreatingWorkspace, BuildEvent::WorkspaceCreated(_)) => BuildPhase::WritingSource,
        (BuildPhase::WritingSource, BuildEvent::SourceWritten) => BuildPhase::Compiling,
        (BuildPhase::Compiling, BuildEvent::CompilerExited { success, .. }) => {
            if success {
                BuildPhase::Opening
            } else {
                BuildPhase::Failed
            }
        },
        (BuildPhase::Opening, BuildEvent::ModuleOpened) => BuildPhase::Resolving,
        (BuildPhase::Resolving, BuildEvent::SymbolResolved) => BuildPhase::Finished,
        _ => BuildPhase::Failed,
    }
}

/// The phase reached from `p` after the events `es`, in order.
pub open spec fn run_phases(p: BuildPhase, es: Seq<BuildEvent>) -> BuildPhase
    decreases es.len(),
{
    if es.len() == 0 {
        p
    } else {
        next_phase(run_phases(p, es.drop_last()), es.last())
    }
}

/// The action that a driver in phase `p`, building `unit` in workspace `dir`,
/// answers to event `e` with.
pub open spec fn expected_action(
    p: BuildPhase,
    unit: Seq<char>,
    dir: Seq<char>,
    e: BuildEvent,
    a: BuildAction,
) -> bool {
    match (p, e) {
        (BuildPhase::CreatingWorkspace, BuildEvent::WorkspaceCreated(d)) => {
            a matches BuildAction::WriteSource { path, text } && path@ == workspace_file(
                d@,
                source_file_spec(),
            ) && text@ == unit
        },
        (BuildPhase::WritingSource, BuildEvent::SourceWritten) => {
            a matches BuildAction::RunCompiler { args } && args@.map_values(|s: String| s@)
                == compiler_args_spec(dir, workspace_file(dir, source_file_spec()))
        },
        (BuildPhase::Compiling, BuildEvent::CompilerExited { success, stderr }) => {
            if success {
                a matches BuildAction::OpenModule { path } && path@ == workspace_file(
                    dir,
                    artifact_file_spec(),
                )
            } else {
                a matches BuildAction::Abort(EvalError::CompileError(msg)) && msg@ == utf8_lossy(
                    stderr@,
                ) && (valid_utf8(stderr@) ==> msg@ == decode_utf8(stderr@)) && (msg@.len() == 0
                    <==> stderr@.len() == 0)
            }
        },
        (BuildPhase::Opening, BuildEvent::ModuleOpened) => {
            a matches BuildAction::ResolveSymbol { name } && name@ == ENTRY_SYMBOL@
        },
        (BuildPhase::Resolving, BuildEvent::SymbolResolved) => a is Finish,
        _ => a == BuildAction::Abort(EvalError::InternalError),
    }
}

/// Drives one build: it is told what happened and answers what to do next.
/// It does no I/O itself.
#[derive(Clone, PartialEq, Eq, Debug)]
pub struct BuildDriver {
    phase: BuildPhase,
    unit: String,
    workspace: String,
}

impl BuildDriver {
    pub closed spec fn phase_spec(&self) -> BuildPhase {
        self.phase
    }

    /// The text of the unit being built.
    pub closed spec fn unit_spec(&self) -> Seq<char> {
        self.unit@
    }

    /// The workspace directory, once one was created.
    pub closed spec fn workspace_spec(&self) -> Seq<char> {
        self.workspace@
    }

    /// A driver for one request, waiting for its workspace.
    pub fn new(request: &CompilationRequest) -> (r: BuildDriver)
        ensures
            r.phase_spec() == BuildPhase::CreatingWorkspace,
            r.unit_spec() == request_unit_text(*request),
            r.workspace_spec() == Seq::<char>::empty(),
    {
        BuildDriver { phase: BuildPhase::CreatingWorkspace, unit: request.unit_text(), workspace: String::new() }
    }

    pub fn phase(&self) -> (r: BuildPhase)
        ensures
            r == self.phase_spec(),
    {
        self.phase
    }

    /// Takes the outcome of the last action and gives the next one.
    pub fn step(&mut self, event: BuildEvent) -> (a: BuildAction)
        ensures
            final(self).phase_spec() == next_phase(old(self).phase_spec(), event),
            final(self).unit_spec() == old(self).unit_spec(),
            final(self).workspace_spec() == (match (old(self).phase_spec(), event) {
                (BuildPhase::CreatingWorkspace, BuildEvent::WorkspaceCreated(d)) => d@,
                _ => old(self).workspace_spec(),
            }),
            expected_action(
                old(self).phase_spec(),
                old(self).unit_spec(),
                old(self).workspace_spec(),
                event,
                a,
            ),
    {
        match (self.phase, event) {
            (BuildPhase::CreatingWorkspace, BuildEvent::WorkspaceCreated(dir)) => {
                let path = Self::file_in(dir.as_str(), source_file_name().as_str());
                self.workspace = dir;
                self.phase = BuildPhase::WritingSource;
                BuildAction::WriteSource { path, text: self.unit.clone() }
            },
            (BuildPhase::WritingSource, BuildEvent::SourceWritten) => {
                let source = Self::file_in(self.workspace.as_str(), source_file_name().as_str());
                self.phase = BuildPhase::Compiling;
                BuildAction::RunCompiler { args: compiler_args(self.workspace.as_str(), source.as_str()) }
            },
            (BuildPhase::Compiling, BuildEvent::CompilerExited { success, stderr }) => {
                if success {
                    self.phase = BuildPhase::Opening;
                    let path = Self::file_in(self.workspace.as_str(), artifact_file_name().as_str());
                    BuildAction::OpenModule { path }
                } else {
                    self.phase = BuildPhase::Failed;
                    BuildAction::Abort(EvalError::CompileError(diagnostic_text(stderr.as_slice())))
                }
            },
            (BuildPhase::Opening, BuildEvent::ModuleOpened) => {
                self.phase = BuildPhase::Resolving;
                BuildAction::ResolveSymbol { name: String::from_str(ENTRY_SYMBOL) }
            },
            (BuildPhase::Resolving, BuildEvent::SymbolResolved) => {
                self.phase = BuildPhase::Finished;
                BuildAction::Finish
            },
            _ => {
                self.phase = BuildPhase::Failed;
                BuildAction::Abort(EvalError::InternalError)
            },
        }
    }

    fn file_in(dir: &str, name: &str) -> (r: String)
        ensures
            r@ == workspace_file(dir@, name@),
    {
        let mut r = String::from_str(dir);
        r.append("/");
        r.append(name);
        r
    }
}

/// Running through `a` and then `b` is running through `a + b`.
pub proof fn lemma_run_phases_append(p: BuildPhase, a: Seq<BuildEvent>, b: Seq<BuildEvent>)
    ensures
        run_phases(p, a + b) == run_phases(run_phases(p, a), b),
    decreases b.len(),
{
    if b.len() == 0 {
        assert(a + b =~= a);
    } else {
        lemma_run_phases_append(p, a, b.drop_last());
        assert((a + b).drop_last() =~= a + b.drop_last());
        assert((a + b).last() == b.last());
    }
}

/// A failed build stays failed, whatever is reported after.
pub proof fn lemma_failed_build_stays_failed(es: Seq<BuildEvent>)
    ensures
        run_phases(BuildPhase::Failed, es) == BuildPhase::Failed,
    decreases es.len(),
{
    if es.len() > 0 {
        lemma_failed_build_stays_failed(es.drop_last());
    }
}

/// A unit that the compiler rejects never yields a callable: the build answers
/// the failed compiler run with the compiler's own diagnostic (its standard error
/// as it stands when that is UTF-8, and empty only when the compiler printed
/// nothing), and whatever is reported after, the build ends
/// `Failed`, never `Finished`.
pub proof fn lemma_rejected_unit_never_finishes(
    before: Seq<BuildEvent>,
    stderr: Vec<u8>,
    after: Seq<BuildEvent>,
    unit: Seq<char>,
    dir: Seq<char>,
    a: BuildAction,
)
    requires
        run_phases(BuildPhase::CreatingWorkspace, before) == BuildPhase::Compiling,
        expected_action(
            BuildPhase::Compiling,
            unit,
            dir,
            BuildEvent::CompilerExited { success: false, stderr },
            a,
        ),
    ensures
        a matches BuildAction::Abort(EvalError::CompileError(msg)) && msg@ == utf8_lossy(stderr@)
            && (valid_utf8(stderr@) ==> msg@ == decode_utf8(stderr@)) && (msg@.len() == 0
            <==> stderr@.len() == 0),
        run_phases(
            BuildPhase::CreatingWorkspace,
            before.push(BuildEvent::CompilerExited { success: false, stderr }) + after,
        ) == BuildPhase::Failed,
{
    let e = BuildEvent::CompilerExited { success: false, stderr };
    let rejected = before.push(e);
    assert(rejected.drop_last() =~= before);
    assert(run_phases(BuildPhase::CreatingWorkspace, rejected) == BuildPhase::Failed);
    lemma_run_phases_append(BuildPhase::CreatingWorkspace, rejected, after);
    lemma_failed_build_stays_failed(after);
}

/// A build finishes (and so releases its workspace) only right after its module
/// was opened and its entry symbol found: loading always comes before the
/// workspace is torn down.
pub proof fn lemma_finish_follows_module_load(es: Seq<BuildEvent>)
    requires
        run_phases(BuildPhase::CreatingWorkspace, es) == BuildPhase::Finished,
    ensures
        es.len() >= 2,
        es[es.len() - 2] is ModuleOpened,
        es[es.len() - 1] is SymbolResolved,
        run_phases(BuildPhase::CreatingWorkspace, es.take(es.len() - 2)) == BuildPhase::Opening,
{
    let dl = es.drop_last();
    assert(run_phases(BuildPhase::CreatingWorkspace, dl) == BuildPhase::Resolving);
    assert(dl.len() > 0);
    assert(run_phases(BuildPhase::CreatingWorkspace, dl.drop_last()) == BuildPhase::Opening);
    assert(dl.drop_last() =~= es.take(es.len() - 2));
}

/// Parameters with the same text.
pub open spec fn same_params_text(a: Seq<Param>, b: Seq<Param>) -> bool {
    &&& a.len() == b.len()
    &&& forall|i: int| 0 <= i < a.len() ==> a[i].name@ == b[i].name@ && a[i].ty@ == b[i].ty@
}

proof fn lemma_params_text_by_text(a: Seq<Param>, b: Seq<Param>)
    requires
        same_params_text(a, b),
    ensures
        params_text(a) == params_text(b),
    decreases a.len(),
{
    if a.len() > 1 {
        lemma_params_text_by_text(a.drop_last(), b.drop_last());
    }
    if a.len() > 0 {
        assert(param_text(a.last()) == param_text(b.last()));
        assert(param_text(a[0]) == param_text(b[0]));
    }
}

/// Two requests with the same text compile the same unit, and their builds ask
/// for the same steps on the same reports: nothing else enters a build, and no
/// earlier build is consulted.
pub proof fn lemma_equal_requests_build_alike(
    r1: CompilationRequest,
    r2: CompilationRequest,
    p: BuildPhase,
    dir: Seq<char>,
    e: BuildEvent,
    a: BuildAction,
)
    requires
        r1.preamble@ == r2.preamble@,
        r1.body@ == r2.body@,
        r1.signature.ret@ == r2.signature.ret@,
        same_params_text(r1.signature.params@, r2.signature.params@),
    ensures
        request_unit_text(r1) == request_unit_text(r2),
        expected_action(p, request_unit_text(r1), dir, e, a) == expected_action(
            p,
            request_unit_text(r2),
            dir,
            e,
            a,
        ),
{
    lemma_params_text_by_text(r1.signature.params@, r2.signature.params@);
}

} // verus!
