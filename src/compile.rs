use vstd::prelude::*;
use vstd::string::StringExecFns;
use crate::error::{outcome_failure, outcome_text, CallFailure, ErrorReport, Outcome, PipelineError};
use crate::steps::{
    advance, advance_spec, failure_of, lemma_first_failure_decides, progress_after,
    progress_index, Progress,
};

verus! {

/// The lowering pipelines a compile invocation can run.
#[derive(Clone, Copy, Debug, PartialEq, Eq, Structural)]
pub enum PipelineKind {
    Std,
}

/// What the compiler session must do next.
#[derive(Debug)]
pub enum CompileAction {
    /// Initialise the compiler.
    CreateCompiler,
    /// Validate and store this flag on the session.
    SetFlag(String),
    /// Wrap the IR bytes as a source.
    CreateSource,
    /// Create an invocation and parse the source in it.
    ParseSource,
    /// Turn IR verification after each pass on or off, and bound how far the
    /// pipeline lowers.
    Configure { verify_ir: bool, phase: String },
    /// Run the lowering pipeline.
    RunPipeline(PipelineKind),
    /// Serialise the lowered module as bytecode.
    OutputBytecode,
    /// Nothing is left to do.
    Stop,
}

pub const CREATE_COMPILER: usize = 0;
pub const SET_TARGET_FLAG: usize = 1;
pub const SET_INPUT_FLAG: usize = 2;
pub const CREATE_SOURCE: usize = 3;
pub const PARSE_SOURCE: usize = 4;
pub const CONFIGURE: usize = 5;
pub const RUN_PIPELINE: usize = 6;
pub const OUTPUT_BYTECODE: usize = 7;

/// Number of steps of one compilation.
pub const COMPILE_STEPS: usize = 8;

/// The error a failure of compile step `i` is reported as. A violated IR
/// invariant found while parsing or lowering is a `Verification` error.
pub open spec fn compile_step_error(i: usize, f: CallFailure) -> PipelineError {
    if i == CREATE_COMPILER {
        PipelineError::Init
    } else if i == SET_TARGET_FLAG || i == SET_INPUT_FLAG {
        PipelineError::InvalidFlag
    } else if i == CREATE_SOURCE {
        PipelineError::Parse
    } else if i == PARSE_SOURCE {
        if f == CallFailure::Verification {
            PipelineError::Verification
        } else {
            PipelineError::Parse
        }
    } else if i == CONFIGURE {
        PipelineError::UnknownPhase
    } else if i == RUN_PIPELINE {
        if f == CallFailure::Verification {
            PipelineError::Verification
        } else {
            PipelineError::Compilation
        }
    } else {
        PipelineError::Serialization
    }
}

pub fn compile_step_error_of(i: usize, f: CallFailure) -> (r: PipelineError)
    ensures
        r == compile_step_error(i, f),
{
    if i == CREATE_COMPILER {
        PipelineError::Init
    } else if i == SET_TARGET_FLAG || i == SET_INPUT_FLAG {
        PipelineError::InvalidFlag
    } else if i == CREATE_SOURCE {
        PipelineError::Parse
    } else if i == PARSE_SOURCE {
        match f {
            CallFailure::Verification => PipelineError::Verification,
            _ => PipelineError::Parse,
        }
    } else if i == CONFIGURE {
        PipelineError::UnknownPhase
    } else if i == RUN_PIPELINE {
        match f {
            CallFailure::Verification => PipelineError::Verification,
            _ => PipelineError::Compilation,
        }
    } else {
        PipelineError::Serialization
    }
}

/// What a step's result does to the sequence: nothing on success, its error on failure.
pub open spec fn compile_result(i: usize, f: Option<CallFailure>) -> Option<PipelineError> {
    match f {
        None => None,
        Some(f) => Some(compile_step_error(i, f)),
    }
}

pub open spec fn target_flag(backend: Seq<char>) -> Seq<char> {
    "--iree-hal-target-backends="@ + backend
}

pub open spec fn input_type_flag() -> Seq<char> {
    "--iree-input-type=auto"@
}

/// The flag that compile step `i` sets, or nothing.
pub open spec fn compile_subject(i: usize, backend: Seq<char>) -> Seq<char> {
    if i == SET_TARGET_FLAG {
        target_flag(backend)
    } else if i == SET_INPUT_FLAG {
        input_type_flag()
    } else {
        Seq::empty()
    }
}

/// The session flags: the target backend, and detection of the input dialect.
pub fn backend_flags(backend: &str) -> (r: Vec<String>)
    ensures
        r@.len() == 2,
        r@[0]@ == target_flag(backend@),
        r@[1]@ == input_type_flag(),
{
    let target = "--iree-hal-target-backends=".to_owned().concat(backend);
    let input = "--iree-input-type=auto".to_owned();
    vec![target, input]
}

fn compile_subject_of(i: usize, backend: &str) -> (r: String)
    ensures
        r@ == compile_subject(i, backend@),
{
    if i == SET_TARGET_FLAG {
        "--iree-hal-target-backends=".to_owned().concat(backend)
    } else if i == SET_INPUT_FLAG {
        "--iree-input-type=auto".to_owned()
    } else {
        String::new()
    }
}

/// The action that fits a compile position: the step's own call, with its
/// arguments fixed, and `Stop` once finished or failed.
pub open spec fn compile_action_fits(p: Progress, backend: Seq<char>, a: CompileAction) -> bool {
    match p {
        Progress::At(i) => {
            if i == CREATE_COMPILER {
                a is CreateCompiler
            } else if i == SET_TARGET_FLAG {
                a matches CompileAction::SetFlag(f) && f@ == target_flag(backend)
            } else if i == SET_INPUT_FLAG {
                a matches CompileAction::SetFlag(f) && f@ == input_type_flag()
            } else if i == CREATE_SOURCE {
                a is CreateSource
            } else if i == PARSE_SOURCE {
                a is ParseSource
            } else if i == CONFIGURE {
                a matches CompileAction::Configure { verify_ir, phase } && verify_ir && phase@
                    == "end"@
            } else if i == RUN_PIPELINE {
                a == CompileAction::RunPipeline(PipelineKind::Std)
            } else if i == OUTPUT_BYTECODE {
                a is OutputBytecode
            } else {
                a is Stop
            }
        },
        _ => a is Stop,
    }
}

/// Drives one ahead-of-time compilation of an IR module to bytecode: which
/// call comes next, and how each outcome moves the compilation on.
pub struct CompileDriver {
    pub backend: String,
    pub progress: Progress,
    /// What stopped the compilation, once it has failed.
    pub report: Option<ErrorReport>,
}

impl CompileDriver {
    pub open spec fn wf(&self) -> bool {
        &&& self.progress matches Progress::At(i) ==> i < COMPILE_STEPS
        &&& self.progress is Failed <==> self.report is Some
        &&& self.report matches Some(r) ==> self.progress == Progress::Failed(r.kind)
    }

    /// A compilation for the named target backend (such as `llvm-cpu`), before its first step.
    pub fn new(backend: &str) -> (r: CompileDriver)
        ensures
            r.wf(),
            r.backend@ == backend@,
            r.progress == Progress::At(CREATE_COMPILER),
    {
        CompileDriver {
            backend: backend.to_owned(),
            progress: Progress::At(CREATE_COMPILER),
            report: None,
        }
    }

    pub fn next_action(&self) -> (r: CompileAction)
        ensures
            compile_action_fits(self.progress, self.backend@, r),
    {
        match self.progress {
            Progress::At(i) => {
                if i == CREATE_COMPILER {
                    CompileAction::CreateCompiler
                } else if i == SET_TARGET_FLAG || i == SET_INPUT_FLAG {
                    CompileAction::SetFlag(compile_subject_of(i, self.backend.as_str()))
                } else if i == CREATE_SOURCE {
                    CompileAction::CreateSource
                } else if i == PARSE_SOURCE {
                    CompileAction::ParseSource
                } else if i == CONFIGURE {
                    CompileAction::Configure { verify_ir: true, phase: "end".to_owned() }
                } else if i == RUN_PIPELINE {
                    CompileAction::RunPipeline(PipelineKind::Std)
                } else if i == OUTPUT_BYTECODE {
                    CompileAction::OutputBytecode
                } else {
                    CompileAction::Stop
                }
            },
            _ => CompileAction::Stop,
        }
    }

    /// Records what the action last handed out came back with. A failure
    /// stops the compilation with the step's error, the flag it concerns and
    /// the call's diagnostic text.
    pub fn record(&mut self, outcome: Outcome)
        requires
            old(self).wf(),
        ensures
            final(self).wf(),
            final(self).backend@ == old(self).backend@,
            final(self).progress == advance_spec(
                old(self).progress,
                compile_result(progress_index(old(self).progress), outcome_failure(outcome)),
                COMPILE_STEPS as nat,
            ),
            old(self).progress is At && outcome is Failed ==> (final(self).report matches Some(r)
                && r.kind == compile_step_error(
                progress_index(old(self).progress),
                outcome_failure(outcome)->Some_0,
            ) && r.subject@ == compile_subject(progress_index(old(self).progress), old(self).backend@)
                && r.detail@ == outcome_text(outcome)),
            !(old(self).progress is At && outcome is Failed) ==> final(self).report == old(
                self,
            ).report,
    {
        match self.progress {
            Progress::At(i) => {
                match outcome {
                    Outcome::Succeeded => {
                        self.progress = advance(self.progress, None, COMPILE_STEPS);
                    },
                    Outcome::Failed(f, text) => {
                        let kind = compile_step_error_of(i, f);
                        self.progress = advance(self.progress, Some(kind), COMPILE_STEPS);
                        let subject = compile_subject_of(i, self.backend.as_str());
                        self.report = Some(ErrorReport { kind, subject, detail: text });
                    },
                }
            },
            _ => {},
        }
    }

    pub fn is_finished(&self) -> (r: bool)
        ensures
            r == (self.progress == Progress::Finished),
    {
        match self.progress {
            Progress::Finished => true,
            _ => false,
        }
    }

    /// The error the compilation stopped with, if it failed.
    pub fn failure(&self) -> (r: Option<PipelineError>)
        ensures
            r == failure_of(self.progress),
    {
        match self.progress {
            Progress::Failed(e) => Some(e),
            _ => None,
        }
    }
}

/// The sequence of step results that a compilation sees for the given call failures.
pub open spec fn compile_results(fs: Seq<Option<CallFailure>>) -> Seq<Option<PipelineError>> {
    Seq::new(fs.len(), |k: int| compile_result(k as usize, fs[k]))
}

/// A compilation reports every failure as a typed error and never crashes:
/// with one outcome for each step, it finishes only when all succeed, and
/// otherwise stops with the error of the first step that failed. In
/// particular a pipeline run that fails stops it with `Verification` when an
/// IR invariant was violated and with `Compilation` otherwise, and a source
/// that does not parse stops it with `Parse`.
pub proof fn lemma_compile_outcomes(fs: Seq<Option<CallFailure>>)
    requires
        fs.len() == COMPILE_STEPS,
    ensures
        (forall|k: int| 0 <= k < fs.len() ==> fs[k] is None) ==> progress_after(
            compile_results(fs),
            COMPILE_STEPS as nat,
        ) == Progress::Finished,
        forall|j: int|
            0 <= j < fs.len() && fs[j] is Some && (forall|k: int| 0 <= k < j ==> fs[k] is None)
                ==> progress_after(compile_results(fs), COMPILE_STEPS as nat) == Progress::Failed(
                compile_step_error(j as usize, fs[j]->Some_0),
            ),
        (forall|k: int| 0 <= k < RUN_PIPELINE ==> fs[k] is None) && fs[RUN_PIPELINE as int]
            == Some(CallFailure::Verification) ==> progress_after(
            compile_results(fs),
            COMPILE_STEPS as nat,
        ) == Progress::Failed(PipelineError::Verification),
        (forall|k: int| 0 <= k < RUN_PIPELINE ==> fs[k] is None) && fs[RUN_PIPELINE as int]
            == Some(CallFailure::Other) ==> progress_after(compile_results(fs), COMPILE_STEPS as nat)
            == Progress::Failed(PipelineError::Compilation),
        (forall|k: int| 0 <= k < PARSE_SOURCE ==> fs[k] is None) && fs[PARSE_SOURCE as int]
            == Some(CallFailure::Other) ==> progress_after(compile_results(fs), COMPILE_STEPS as nat)
            == Progress::Failed(PipelineError::Parse),
{
    let rs = compile_results(fs);
    lemma_first_failure_decides(rs, COMPILE_STEPS as nat);
    if forall|k: int| 0 <= k < fs.len() ==> fs[k] is None {
        assert forall|k: int| 0 <= k < fs.len() implies rs[k] is None by {
            assert(fs[k] is None);
        }
    }
    assert forall|j: int|
        0 <= j < fs.len() && fs[j] is Some && (forall|k: int| 0 <= k < j ==> fs[k] is None) implies
            progress_after(rs, COMPILE_STEPS as nat) == Progress::Failed(
            compile_step_error(j as usize, fs[j]->Some_0),
        ) by {
        assert forall|k: int| 0 <= k < j implies rs[k] is None by {
            assert(fs[k] is None);
        }
        assert(rs[j] == Some(compile_step_error(j as usize, fs[j]->Some_0)));
    }
}

} // verus!
