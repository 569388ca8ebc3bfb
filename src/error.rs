use vstd::prelude::*;
use vstd::string::StringSliceAdditionalSpecFns;

verus! {

/// Every failure that the compile and execute pipeline reports.
#[derive(Clone, Copy, Debug, PartialEq, Eq, Structural)]
pub enum PipelineError {
    /// The compiler's global environment could not be initialised.
    Init,
    /// A compiler flag was refused.
    InvalidFlag,
    /// The IR source is malformed.
    Parse,
    /// An IR invariant was violated between passes.
    Verification,
    /// The requested compilation phase is unknown.
    UnknownPhase,
    /// A lowering or optimisation pass failed.
    Compilation,
    /// The lowered module could not be written out as bytecode.
    Serialization,
    /// No execution driver is available.
    NoDriversAvailable,
    /// The device could not be created.
    DeviceCreation,
    /// The execution session could not be created.
    SessionCreation,
    /// The bytecode could not be loaded as a module.
    ModuleLoad,
    /// No loaded module exports the requested function.
    FunctionNotFound,
    /// The supplied argument lists do not match the function's signature.
    Invocation,
    /// The backend faulted while executing.
    Runtime,
    /// The data handed to a buffer does not fill its shape exactly.
    ShapeMismatch,
    /// Device memory ran out.
    Allocation,
    /// The buffer could not be mapped into host memory.
    Mapping,
    /// A reference does not hold the requested element type.
    TypeMismatch,
    /// A file could not be read.
    Io,
}

/// The coarse classes of failure, which decide how a caller may react.
#[derive(Clone, Copy, Debug, PartialEq, Eq, Structural)]
pub enum ErrorCategory {
    /// Bad flags or options: a caller bug.
    Configuration,
    /// Bad IR or an unsupported construct.
    Compilation,
    /// Missing or faulty hardware backend.
    Device,
    /// The artifact does not fit the runtime: fatal for the run.
    Artifact,
    /// Resource exhaustion.
    Allocation,
    /// File access.
    Io,
}

pub open spec fn category_of(e: PipelineError) -> ErrorCategory {
    match e {
        PipelineError::Init | PipelineError::InvalidFlag | PipelineError::UnknownPhase
            => ErrorCategory::Configuration,
        PipelineError::Parse | PipelineError::Verification | PipelineError::Compilation
        | PipelineError::Serialization => ErrorCategory::Compilation,
        PipelineError::NoDriversAvailable | PipelineError::DeviceCreation
        | PipelineError::SessionCreation | PipelineError::Mapping => ErrorCategory::Device,
        PipelineError::ModuleLoad | PipelineError::FunctionNotFound | PipelineError::Invocation
        | PipelineError::Runtime | PipelineError::ShapeMismatch
        | PipelineError::TypeMismatch => ErrorCategory::Artifact,
        PipelineError::Allocation => ErrorCategory::Allocation,
        PipelineError::Io => ErrorCategory::Io,
    }
}

/// Device faults may pass with another backend, exhausted resources after
/// freeing some, and file access on a later try; the rest needs a changed input.
pub open spec fn category_retriable(c: ErrorCategory) -> bool {
    match c {
        ErrorCategory::Device | ErrorCategory::Allocation | ErrorCategory::Io => true,
        _ => false,
    }
}

impl PipelineError {
    pub fn category(&self) -> (r: ErrorCategory)
        ensures
            r == category_of(*self),
    {
        match self {
            PipelineError::Init | PipelineError::InvalidFlag | PipelineError::UnknownPhase
                => ErrorCategory::Configuration,
            PipelineError::Parse | PipelineError::Verification | PipelineError::Compilation
            | PipelineError::Serialization => ErrorCategory::Compilation,
            PipelineError::NoDriversAvailable | PipelineError::DeviceCreation
            | PipelineError::SessionCreation | PipelineError::Mapping => ErrorCategory::Device,
            PipelineError::ModuleLoad | PipelineError::FunctionNotFound
            | PipelineError::Invocation | PipelineError::Runtime | PipelineError::ShapeMismatch
            | PipelineError::TypeMismatch => ErrorCategory::Artifact,
            PipelineError::Allocation => ErrorCategory::Allocation,
            PipelineError::Io => ErrorCategory::Io,
        }
    }

    /// Whether a later attempt may succeed without a change to the inputs.
    pub fn is_retriable(&self) -> (r: bool)
        ensures
            r == category_retriable(category_of(*self)),
    {
        match self.category() {
            ErrorCategory::Device | ErrorCategory::Allocation | ErrorCategory::Io => true,
            _ => false,
        }
    }
}

/// How an outside call failed, as far as the pipeline tells failures apart.
#[derive(Clone, Copy, Debug, PartialEq, Eq, Structural)]
pub enum CallFailure {
    /// The call refused the arguments it was handed.
    Arguments,
    /// The IR broke a structural or type invariant.
    Verification,
    /// Any other failure.
    Other,
}

/// What an outside call came back with: success, or how it failed and the
/// diagnostic text it gave.
#[derive(Debug)]
pub enum Outcome {
    Succeeded,
    Failed(CallFailure, String),
}

pub open spec fn outcome_failure(o: Outcome) -> Option<CallFailure> {
    match o {
        Outcome::Succeeded => None,
        Outcome::Failed(f, _) => Some(f),
    }
}

pub open spec fn outcome_text(o: Outcome) -> Seq<char> {
    match o {
        Outcome::Succeeded => Seq::empty(),
        Outcome::Failed(_, t) => t@,
    }
}

/// A failure with what it concerns (the refused flag, the missing function;
/// empty where nothing in particular) and the diagnostic text of the call.
#[derive(Debug)]
pub struct ErrorReport {
    pub kind: PipelineError,
    pub subject: String,
    pub detail: String,
}

/// `marker` occurs in `text` as a contiguous run.
pub open spec fn mentions_spec(text: Seq<u8>, marker: Seq<u8>) -> bool {
    exists|i: int|
        0 <= i && i + marker.len() <= text.len() && #[trigger] text.subrange(i, i + marker.len())
            == marker
}

pub fn mentions(text: &[u8], marker: &[u8]) -> (r: bool)
    ensures
        r == mentions_spec(text@, marker@),
{
    let n = text.len();
    let m = marker.len();
    if m > n {
        return false;
    }
    if m == 0 {
        assert(text@.subrange(0int, 0int + marker@.len()) =~= marker@);
        return true;
    }
    let mut i: usize = 0;
    while i <= n - m
        invariant
            1 <= m <= n,
            n == text@.len(),
            m == marker@.len(),
            i <= n - m + 1,
            forall|k: int| 0 <= k < i ==> #[trigger] text@.subrange(k, k + m) != marker@,
        decreases n - m + 1 - i,
    {
        let mut j: usize = 0;
        let mut same = true;
        while j < m
            invariant
                j <= m,
                i + m <= n,
                n == text@.len(),
                m == marker@.len(),
                same ==> forall|l: int| 0 <= l < j ==> text@[i + l] == marker@[l],
                !same ==> text@.subrange(i as int, i + m) != marker@,
            decreases m - j,
        {
            if same && text[i + j] != marker[j] {
                same = false;
                assert(text@.subrange(i as int, i + m)[j as int] != marker@[j as int]);
            }
            j = j + 1;
        }
        if same {
            assert(text@.subrange(i as int, i + m) =~= marker@);
            return true;
        }
        i = i + 1;
    }
    false
}

/// Reads how a runtime call failed from its diagnostic text: the runtime
/// reports refused arguments with the status code `INVALID_ARGUMENT`.
pub fn runtime_failure_kind(text: &str) -> (r: CallFailure)
    ensures
        r == if mentions_spec(text.spec_bytes(), "INVALID_ARGUMENT".spec_bytes()) {
            CallFailure::Arguments
        } else {
            CallFailure::Other
        },
{
    if mentions(text.as_bytes(), "INVALID_ARGUMENT".as_bytes()) {
        CallFailure::Arguments
    } else {
        CallFailure::Other
    }
}

/// Reads how a compiler call failed from its diagnostic text: the IR
/// verifier reports a violated invariant as `failed to verify`.
pub fn compiler_failure_kind(text: &str) -> (r: CallFailure)
    ensures
        r == if mentions_spec(text.spec_bytes(), "failed to verify".spec_bytes()) {
            CallFailure::Verification
        } else {
            CallFailure::Other
        },
{
    if mentions(text.as_bytes(), "failed to verify".as_bytes()) {
        CallFailure::Verification
    } else {
        CallFailure::Other
    }
}

} // verus!
