use vstd::prelude::*;
use crate::error::{outcome_failure, outcome_text, CallFailure, ErrorReport, Outcome, PipelineError};
use crate::shape::{check_buffer_data, detector_input_dims, detector_input_shape, fits_data};
use crate::steps::{
    advance, advance_spec, failure_of, lemma_first_failure_decides, progress_after,
    progress_index, Progress,
};

verus! {

/// What the runtime must do next to run the compiled detector once.
#[derive(Debug)]
pub enum RunAction {
    /// Create the runtime instance with every available driver.
    CreateInstance,
    /// Create the default device of the named driver.
    CreateDevice(String),
    /// Bind a session to the device.
    CreateSession,
    /// Load the compiled bytecode into the session.
    AppendModule,
    /// Resolve the entry point with this qualified name.
    LookupFunction(String),
    /// Create the input list with this capacity.
    CreateInputList(usize),
    /// Create a dense row-major float buffer of this shape from the input data.
    CreateInputBuffer(Vec<usize>),
    /// Push a reference to the input buffer onto the input list.
    PushInput,
    /// Create the output list with this capacity.
    CreateOutputList(usize),
    /// Call the function, blocking until it completes.
    Invoke,
    /// Take the output reference at this index as a float buffer view.
    ReadOutput(usize),
    /// Map the output buffer into host memory and copy its values out.
    MapOutput,
    /// Nothing is left to do.
    Stop,
}

pub const CREATE_INSTANCE: usize = 0;
pub const CREATE_DEVICE: usize = 1;
pub const CREATE_SESSION: usize = 2;
pub const APPEND_MODULE: usize = 3;
pub const LOOKUP_FUNCTION: usize = 4;
pub const CREATE_INPUT_LIST: usize = 5;
pub const CREATE_INPUT_BUFFER: usize = 6;
pub const PUSH_INPUT: usize = 7;
pub const CREATE_OUTPUT_LIST: usize = 8;
pub const INVOKE: usize = 9;
pub const READ_OUTPUT: usize = 10;
pub const MAP_OUTPUT: usize = 11;

/// Inputs the run hands to the entry point: one image tensor.
pub const INPUT_ARITY: usize = 1;

/// Outputs the run reads back: one tensor.
pub const OUTPUT_ARITY: usize = 1;

/// Number of steps of one run.
pub const RUN_STEPS: usize = 12;

/// The error a failure of run step `i` is reported as. A call that the
/// runtime refuses for its arguments is an `Invocation` error, any other
/// failure of the call a `Runtime` error.
pub open spec fn run_step_error(i: usize, f: CallFailure) -> PipelineError {
    if i == CREATE_INSTANCE {
        PipelineError::NoDriversAvailable
    } else if i == CREATE_DEVICE {
        PipelineError::DeviceCreation
    } else if i == CREATE_SESSION {
        PipelineError::SessionCreation
    } else if i == APPEND_MODULE {
        PipelineError::ModuleLoad
    } else if i == LOOKUP_FUNCTION {
        PipelineError::FunctionNotFound
    } else if i == CREATE_INPUT_LIST || i == CREATE_INPUT_BUFFER || i == PUSH_INPUT
        || i == CREATE_OUTPUT_LIST {
        PipelineError::Allocation
    } else if i == INVOKE {
        if f == CallFailure::Arguments {
            PipelineError::Invocation
        } else {
            PipelineError::Runtime
        }
    } else if i == READ_OUTPUT {
        if f == CallFailure::Arguments {
            PipelineError::TypeMismatch
        } else {
            PipelineError::Invocation
        }
    } else {
        PipelineError::Mapping
    }
}

pub fn run_step_error_of(i: usize, f: CallFailure) -> (r: PipelineError)
    ensures
        r == run_step_error(i, f),
{
    if i == CREATE_INSTANCE {
        PipelineError::NoDriversAvailable
    } else if i == CREATE_DEVICE {
        PipelineError::DeviceCreation
    } else if i == CREATE_SESSION {
        PipelineError::SessionCreation
    } else if i == APPEND_MODULE {
        PipelineError::ModuleLoad
    } else if i == LOOKUP_FUNCTION {
        PipelineError::FunctionNotFound
    } else if i == CREATE_INPUT_LIST || i == CREATE_INPUT_BUFFER || i == PUSH_INPUT
        || i == CREATE_OUTPUT_LIST {
        PipelineError::Allocation
    } else if i == INVOKE {
        match f {
            CallFailure::Arguments => PipelineError::Invocation,
            _ => PipelineError::Runtime,
        }
    } else if i == READ_OUTPUT {
        match f {
            CallFailure::Arguments => PipelineError::TypeMismatch,
            _ => PipelineError::Invocation,
        }
    } else {
        PipelineError::Mapping
    }
}

pub open spec fn run_result(i: usize, f: Option<CallFailure>) -> Option<PipelineError> {
    match f {
        None => None,
        Some(f) => Some(run_step_error(i, f)),
    }
}

pub open spec fn entry_point_name() -> Seq<char> {
    "module.main_graph"@
}

/// What run step `i` concerns: the driver, the entry point, or nothing.
pub open spec fn run_subject(i: usize) -> Seq<char> {
    if i == CREATE_DEVICE {
        "local-task"@
    } else if i == LOOKUP_FUNCTION || i == INVOKE {
        entry_point_name()
    } else {
        Seq::empty()
    }
}

fn run_subject_of(i: usize) -> (r: String)
    ensures
        r@ == run_subject(i),
{
    if i == CREATE_DEVICE {
        "local-task".to_owned()
    } else if i == LOOKUP_FUNCTION || i == INVOKE {
        "module.main_graph".to_owned()
    } else {
        String::new()
    }
}

/// Checks an input list against the arity a function declares: any other
/// length is an `Invocation` error, never a truncated call.
pub fn check_arity(supplied: usize, declared: usize) -> (r: Result<(), PipelineError>)
    ensures
        r is Ok <==> supplied == declared,
        r matches Err(e) ==> e == PipelineError::Invocation,
{
    if supplied == declared {
        Ok(())
    } else {
        Err(PipelineError::Invocation)
    }
}

/// Drives one run of the compiled detector: which runtime call comes next,
/// with which arguments, and how each outcome moves the run on.
pub struct RunDriver {
    pub progress: Progress,
    /// Number of input values handed over for the input buffer.
    pub data_len: usize,
    /// Number of inputs the entry point declares.
    pub declared_inputs: usize,
    /// Whether the bytecode module has been loaded into the session.
    pub module_appended: bool,
    /// Number of references pushed onto the input list.
    pub inputs_pushed: usize,
    /// What stopped the run, once it has failed.
    pub report: Option<ErrorReport>,
}

/// The action that fits a run position.
pub open spec fn run_action_fits(d: RunDriver, a: RunAction) -> bool {
    match d.progress {
        Progress::At(i) => {
            if i == CREATE_INSTANCE {
                a is CreateInstance
            } else if i == CREATE_DEVICE {
                a matches RunAction::CreateDevice(s) && s@ == "local-task"@
            } else if i == CREATE_SESSION {
                a is CreateSession
            } else if i == APPEND_MODULE {
                a is AppendModule
            } else if i == LOOKUP_FUNCTION {
                a matches RunAction::LookupFunction(s) && s@ == entry_point_name()
            } else if i == CREATE_INPUT_LIST {
                a == RunAction::CreateInputList(INPUT_ARITY)
            } else if i == CREATE_INPUT_BUFFER {
                a matches RunAction::CreateInputBuffer(s) && s@ == detector_input_dims()
            } else if i == PUSH_INPUT {
                a is PushInput
            } else if i == CREATE_OUTPUT_LIST {
                a == RunAction::CreateOutputList(OUTPUT_ARITY)
            } else if i == INVOKE {
                a is Invoke
            } else if i == READ_OUTPUT {
                a == RunAction::ReadOutput(0)
            } else if i == MAP_OUTPUT {
                a is MapOutput
            } else {
                a is Stop
            }
        },
        _ => a is Stop,
    }
}

impl RunDriver {
    /// The driver's bookkeeping agrees with how far the run has come.
    pub open spec fn wf(&self) -> bool {
        &&& self.progress matches Progress::At(i) ==> i < RUN_STEPS
        &&& self.progress matches Progress::At(i) ==> (self.module_appended <==> i > APPEND_MODULE)
        &&& self.progress matches Progress::At(i) ==> self.inputs_pushed == if i > PUSH_INPUT {
            INPUT_ARITY
        } else {
            0usize
        }
        &&& self.progress is Finished ==> self.module_appended && self.inputs_pushed == INPUT_ARITY
        &&& self.progress is Failed <==> self.report is Some
        &&& self.report matches Some(r) ==> self.progress == Progress::Failed(r.kind)
    }

    /// A run over `data_len` input values of an entry point that declares
    /// `declared_inputs` inputs, before its first step.
    pub fn new(data_len: usize, declared_inputs: usize) -> (r: RunDriver)
        ensures
            r.wf(),
            r.progress == Progress::At(CREATE_INSTANCE),
            r.data_len == data_len,
            r.declared_inputs == declared_inputs,
    {
        RunDriver {
            progress: Progress::At(CREATE_INSTANCE),
            data_len,
            declared_inputs,
            module_appended: false,
            inputs_pushed: 0,
            report: None,
        }
    }

    /// The next call to make. Before the input buffer is created the data is
    /// checked against the input shape, and before the call the input list
    /// against the entry point's declared arity; a failed check stops the run
    /// with `ShapeMismatch` or `Invocation` and no call is made.
    pub fn next_action(&mut self) -> (r: RunAction)
        requires
            old(self).wf(),
        ensures
            final(self).wf(),
            final(self).data_len == old(self).data_len,
            final(self).declared_inputs == old(self).declared_inputs,
            final(self).module_appended == old(self).module_appended,
            final(self).inputs_pushed == old(self).inputs_pushed,
            old(self).progress == Progress::At(CREATE_INPUT_BUFFER) && !fits_data(
                detector_input_dims(),
                old(self).data_len as int,
            ) ==> final(self).progress == Progress::Failed(PipelineError::ShapeMismatch),
            old(self).progress == Progress::At(INVOKE) && old(self).inputs_pushed != old(
                self,
            ).declared_inputs ==> final(self).progress == Progress::Failed(
                PipelineError::Invocation,
            ) && (final(self).report matches Some(rep) && rep.subject@ == entry_point_name()),
            !(old(self).progress == Progress::At(CREATE_INPUT_BUFFER) && !fits_data(
                detector_input_dims(),
                old(self).data_len as int,
            )) && !(old(self).progress == Progress::At(INVOKE) && old(self).inputs_pushed != old(
                self,
            ).declared_inputs) ==> final(self).progress == old(self).progress && final(self).report
                == old(self).report,
            run_action_fits(*final(self), r),
            r is LookupFunction ==> final(self).module_appended,
            r is Invoke ==> final(self).inputs_pushed == final(self).declared_inputs,
            r is CreateInputBuffer ==> fits_data(detector_input_dims(), final(self).data_len as int),
    {
        match self.progress {
            Progress::At(i) => {
                if i == CREATE_INSTANCE {
                    RunAction::CreateInstance
                } else if i == CREATE_DEVICE {
                    RunAction::CreateDevice("local-task".to_owned())
                } else if i == CREATE_SESSION {
                    RunAction::CreateSession
                } else if i == APPEND_MODULE {
                    RunAction::AppendModule
                } else if i == LOOKUP_FUNCTION {
                    RunAction::LookupFunction("module.main_graph".to_owned())
                } else if i == CREATE_INPUT_LIST {
                    RunAction::CreateInputList(INPUT_ARITY)
                } else if i == CREATE_INPUT_BUFFER {
                    let shape = detector_input_shape();
                    match check_buffer_data(&shape, self.data_len) {
                        Ok(_) => RunAction::CreateInputBuffer(shape),
                        Err(e) => {
                            self.progress = Progress::Failed(e);
                            self.report = Some(
                                ErrorReport { kind: e, subject: String::new(), detail: String::new() },
                            );
                            RunAction::Stop
                        },
                    }
                } else if i == PUSH_INPUT {
                    RunAction::PushInput
                } else if i == CREATE_OUTPUT_LIST {
                    RunAction::CreateOutputList(OUTPUT_ARITY)
                } else if i == INVOKE {
                    match check_arity(self.inputs_pushed, self.declared_inputs) {
                        Ok(()) => RunAction::Invoke,
                        Err(e) => {
                            self.progress = Progress::Failed(e);
                            self.report = Some(
                                ErrorReport {
                                    kind: e,
                                    subject: run_subject_of(INVOKE),
                                    detail: String::new(),
                                },
                            );
                            RunAction::Stop
                        },
                    }
                } else if i == READ_OUTPUT {
                    RunAction::ReadOutput(0)
                } else {
                    RunAction::MapOutput
                }
            },
            _ => RunAction::Stop,
        }
    }

    /// Records what the action last handed out came back with. A failure
    /// stops the run with the step's error, what the step concerns and the
    /// call's diagnostic text.
    pub fn record(&mut self, outcome: Outcome)
        requires
            old(self).wf(),
        ensures
            final(self).wf(),
            final(self).data_len == old(self).data_len,
            final(self).declared_inputs == old(self).declared_inputs,
            final(self).progress == advance_spec(
                old(self).progress,
                run_result(progress_index(old(self).progress), outcome_failure(outcome)),
                RUN_STEPS as nat,
            ),
            old(self).progress is At && outcome is Failed ==> (final(self).report matches Some(r)
                && r.kind == run_step_error(
                progress_index(old(self).progress),
                outcome_failure(outcome)->Some_0,
            ) && r.subject@ == run_subject(progress_index(old(self).progress)) && r.detail@
                == outcome_text(outcome)),
            !(old(self).progress is At && outcome is Failed) ==> final(self).report == old(
                self,
            ).report,
    {
        match self.progress {
            Progress::At(i) => {
                match outcome {
                    Outcome::Succeeded => {
                        self.progress = advance(self.progress, None, RUN_STEPS);
                        if i == APPEND_MODULE {
                            self.module_appended = true;
                        } else if i == PUSH_INPUT {
                            self.inputs_pushed = INPUT_ARITY;
                        }
                    },
                    Outcome::Failed(f, text) => {
                        let kind = run_step_error_of(i, f);
                        self.progress = advance(self.progress, Some(kind), RUN_STEPS);
                        self.report = Some(
                            ErrorReport { kind, subject: run_subject_of(i), detail: text },
                        );
                    },
                }
            },
            _ => {},
        }
    }

    pub fn is_finished(&self) -> (r: bool)
        ensures
            r == (self.progress == Progress::Finished),
    {
        match self.progress {
            Progress::Finished => true,
            _ => false,
        }
    }

    /// The error the run stopped with, if it failed.
    pub fn failure(&self) -> (r: Option<PipelineError>)
        ensures
            r == failure_of(self.progress),
    {
        match self.progress {
            Progress::Failed(e) => Some(e),
            _ => None,
        }
    }
}

/// A function is only ever looked up in a session that holds the loaded
/// module, and only ever called with as many inputs as it declares.
pub proof fn lemma_lookup_after_append(d: RunDriver)
    requires
        d.wf(),
    ensures
        d.progress == Progress::At(LOOKUP_FUNCTION) ==> d.module_appended,
        d.progress == Progress::At(APPEND_MODULE) ==> !d.module_appended,
        d.progress == Progress::At(INVOKE) ==> d.inputs_pushed == INPUT_ARITY,
{
}

/// The sequence of step results that a run sees for the given call failures.
pub open spec fn run_results(fs: Seq<Option<CallFailure>>) -> Seq<Option<PipelineError>> {
    Seq::new(fs.len(), |k: int| run_result(k as usize, fs[k]))
}

/// With one outcome for each runtime call, a run finishes only when every
/// call succeeds, and otherwise stops with the error of the first call that
/// failed: a module that does not load gives `ModuleLoad`, a lookup that
/// finds no function `FunctionNotFound`, and a call refused for its
/// arguments `Invocation`.
pub proof fn lemma_run_outcomes(fs: Seq<Option<CallFailure>>)
    requires
        fs.len() == RUN_STEPS,
    ensures
        (forall|k: int| 0 <= k < fs.len() ==> fs[k] is None) ==> progress_after(
            run_results(fs),
            RUN_STEPS as nat,
        ) == Progress::Finished,
        forall|j: int|
            0 <= j < fs.len() && fs[j] is Some && (forall|k: int| 0 <= k < j ==> fs[k] is None)
                ==> progress_after(run_results(fs), RUN_STEPS as nat) == Progress::Failed(
                run_step_error(j as usize, fs[j]->Some_0),
            ),
        (forall|k: int| 0 <= k < APPEND_MODULE ==> fs[k] is None) && fs[APPEND_MODULE as int]
            is Some ==> progress_after(run_results(fs), RUN_STEPS as nat) == Progress::Failed(
            PipelineError::ModuleLoad,
        ),
        (forall|k: int| 0 <= k < LOOKUP_FUNCTION ==> fs[k] is None) && fs[LOOKUP_FUNCTION as int]
            is Some ==> progress_after(run_results(fs), RUN_STEPS as nat) == Progress::Failed(
            PipelineError::FunctionNotFound,
        ),
        (forall|k: int| 0 <= k < INVOKE ==> fs[k] is None) && fs[INVOKE as int] == Some(
            CallFailure::Arguments,
        ) ==> progress_after(run_results(fs), RUN_STEPS as nat) == Progress::Failed(
            PipelineError::Invocation,
        ),
{
    let rs = run_results(fs);
    lemma_first_failure_decides(rs, RUN_STEPS as nat);
    if forall|k: int| 0 <= k < fs.len() ==> fs[k] is None {
        assert forall|k: int| 0 <= k < fs.len() implies rs[k] is None by {
            assert(fs[k] is None);
        }
    }
    assert forall|j: int|
        0 <= j < fs.len() && fs[j] is Some && (forall|k: int| 0 <= k < j ==> fs[k] is None) implies
            progress_after(rs, RUN_STEPS as nat) == Progress::Failed(
            run_step_error(j as usize, fs[j]->Some_0),
        ) by {
        assert forall|k: int| 0 <= k < j implies rs[k] is None by {
            assert(fs[k] is None);
        }
        assert(rs[j] == Some(run_step_error(j as usize, fs[j]->Some_0)));
    }
}

} // verus!
