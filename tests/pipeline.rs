use yolo_iree::compile::{backend_flags, CompileAction, CompileDriver, PipelineKind};
use yolo_iree::error::{
    compiler_failure_kind, mentions, runtime_failure_kind, CallFailure, ErrorCategory, Outcome,
    PipelineError,
};
use yolo_iree::execute::{check_arity, RunAction, RunDriver};
use yolo_iree::preprocess::{planar_samples, yolo_samples, RgbaImage};
use yolo_iree::shape::{
    byte_length, check_buffer_data, detector_input_shape, element_count, planar_shape,
};
use yolo_iree::steps::Progress;

fn uniform_image(width: u32, height: u32, rgba: [u8; 4]) -> RgbaImage {
    let mut pixels = Vec::new();
    for _ in 0..(width as usize * height as usize) {
        pixels.extend_from_slice(&rgba);
    }
    RgbaImage::new(width, height, pixels).unwrap()
}

#[test]
fn element_count_of_detector_input() {
    assert_eq!(element_count(&detector_input_shape()), Some(1228800));
    assert_eq!(element_count(&planar_shape()), Some(1228800));
    assert_eq!(element_count(&vec![]), Some(1));
    assert_eq!(element_count(&vec![2, 3, 4]), Some(24));
}

#[test]
fn element_count_rejects_zero_and_overflow() {
    assert_eq!(element_count(&vec![2, 0, 3]), None);
    assert_eq!(element_count(&vec![usize::MAX, 2]), None);
    assert_eq!(element_count(&vec![usize::MAX, 1]), Some(usize::MAX));
}

#[test]
fn buffer_data_must_fill_shape() {
    let shape = vec![1, 640, 640, 3];
    assert_eq!(check_buffer_data(&shape, 1228800), Ok(1228800));
    assert_eq!(check_buffer_data(&shape, 1228799), Err(PipelineError::ShapeMismatch));
    assert_eq!(check_buffer_data(&shape, 0), Err(PipelineError::ShapeMismatch));
    assert_eq!(check_buffer_data(&vec![0, 4], 0), Err(PipelineError::ShapeMismatch));
}

#[test]
fn byte_length_is_count_times_element_size() {
    assert_eq!(byte_length(&detector_input_shape(), 4), Some(4915200));
    assert_eq!(byte_length(&vec![3, 5], 2), Some(30));
    assert_eq!(byte_length(&vec![usize::MAX / 2, 2], 4), None);
    assert_eq!(byte_length(&vec![3, 0], 4), None);
}

#[test]
fn rgba_image_needs_exact_length() {
    assert!(RgbaImage::new(2, 2, vec![0; 16]).is_some());
    assert!(RgbaImage::new(2, 2, vec![0; 15]).is_none());
    assert!(RgbaImage::new(2, 2, vec![0; 17]).is_none());
    assert!(RgbaImage::new(0, 5, vec![]).is_some());
}

#[test]
fn planar_samples_split_channels_and_drop_alpha() {
    let pixels = vec![1, 2, 3, 4, 5, 6, 7, 8];
    assert_eq!(planar_samples(&pixels, 2), vec![1, 5, 2, 6, 3, 7]);
    assert_eq!(planar_samples(&vec![], 0), Vec::<u8>::new());
}

#[test]
fn black_image_gives_zero_samples() {
    let img = uniform_image(640, 640, [0, 0, 0, 255]);
    let samples = yolo_samples(&img);
    assert_eq!(samples.len(), 3 * 640 * 640);
    assert!(samples.iter().all(|s| *s == 0));
}

#[test]
fn white_image_gives_full_scale_samples() {
    let img = uniform_image(640, 640, [255, 255, 255, 0]);
    let samples = yolo_samples(&img);
    assert_eq!(samples.len(), 3 * 640 * 640);
    assert!(samples.iter().all(|s| *s == 255));
    let tensor: Vec<f32> = samples.iter().map(|s| *s as f32 / 255.0).collect();
    assert!(tensor.iter().all(|v| *v == 1.0));
}

#[test]
fn samples_keep_channel_planes_in_order() {
    let img = uniform_image(640, 640, [10, 20, 30, 40]);
    let samples = yolo_samples(&img);
    let plane = 640 * 640;
    assert!(samples[..plane].iter().all(|s| *s == 10));
    assert!(samples[plane..2 * plane].iter().all(|s| *s == 20));
    assert!(samples[2 * plane..].iter().all(|s| *s == 30));
}

#[test]
fn small_image_is_resized_to_detector_size() {
    let img = uniform_image(4, 2, [100, 150, 200, 255]);
    let samples = yolo_samples(&img);
    assert_eq!(samples.len(), 3 * 640 * 640);
    let plane = 640 * 640;
    assert!(samples[..plane].iter().all(|s| (*s as i32 - 100).abs() <= 1));
    assert!(samples[2 * plane..].iter().all(|s| (*s as i32 - 200).abs() <= 1));
}

#[test]
fn flags_name_backend_and_input_type() {
    let flags = backend_flags("llvm-cpu");
    assert_eq!(
        flags,
        vec![
            "--iree-hal-target-backends=llvm-cpu".to_string(),
            "--iree-input-type=auto".to_string()
        ]
    );
}

fn failed(kind: CallFailure, text: &str) -> Outcome {
    Outcome::Failed(kind, text.to_string())
}

#[test]
fn compile_steps_in_order_when_all_succeed() {
    let mut d = CompileDriver::new("llvm-cpu");
    assert!(matches!(d.next_action(), CompileAction::CreateCompiler));
    d.record(Outcome::Succeeded);
    match d.next_action() {
        CompileAction::SetFlag(f) => assert_eq!(f, "--iree-hal-target-backends=llvm-cpu"),
        other => panic!("unexpected {:?}", other),
    }
    d.record(Outcome::Succeeded);
    match d.next_action() {
        CompileAction::SetFlag(f) => assert_eq!(f, "--iree-input-type=auto"),
        other => panic!("unexpected {:?}", other),
    }
    d.record(Outcome::Succeeded);
    assert!(matches!(d.next_action(), CompileAction::CreateSource));
    d.record(Outcome::Succeeded);
    assert!(matches!(d.next_action(), CompileAction::ParseSource));
    d.record(Outcome::Succeeded);
    match d.next_action() {
        CompileAction::Configure { verify_ir, phase } => {
            assert!(verify_ir);
            assert_eq!(phase, "end");
        }
        other => panic!("unexpected {:?}", other),
    }
    d.record(Outcome::Succeeded);
    assert!(matches!(d.next_action(), CompileAction::RunPipeline(PipelineKind::Std)));
    d.record(Outcome::Succeeded);
    assert!(matches!(d.next_action(), CompileAction::OutputBytecode));
    d.record(Outcome::Succeeded);
    assert!(d.is_finished());
    assert_eq!(d.failure(), None);
    assert!(d.report.is_none());
    assert!(matches!(d.next_action(), CompileAction::Stop));
}

fn compile_failing_at(step: usize, kind: CallFailure, text: &str) -> CompileDriver {
    let mut d = CompileDriver::new("llvm-cpu");
    for i in 0..8 {
        let _ = d.next_action();
        if i == step {
            d.record(failed(kind, text));
        } else {
            d.record(Outcome::Succeeded);
        }
    }
    d
}

#[test]
fn malformed_source_fails_with_parse_error() {
    let d = compile_failing_at(4, CallFailure::Other, "expected operation name");
    assert_eq!(d.failure(), Some(PipelineError::Parse));
    assert!(!d.is_finished());
    assert!(matches!(d.next_action(), CompileAction::Stop));
    let report = d.report.as_ref().unwrap();
    assert_eq!(report.kind, PipelineError::Parse);
    assert_eq!(report.detail, "expected operation name");
}

#[test]
fn failed_pipeline_gives_compilation_error() {
    let d = compile_failing_at(6, CallFailure::Other, "pass 'iree-llvmcpu-lower' failed");
    assert_eq!(d.failure(), Some(PipelineError::Compilation));
    assert_eq!(d.report.as_ref().unwrap().detail, "pass 'iree-llvmcpu-lower' failed");
    assert_eq!(compile_failing_at(0, CallFailure::Other, "").failure(), Some(PipelineError::Init));
    assert_eq!(
        compile_failing_at(5, CallFailure::Other, "").failure(),
        Some(PipelineError::UnknownPhase)
    );
    assert_eq!(
        compile_failing_at(7, CallFailure::Other, "").failure(),
        Some(PipelineError::Serialization)
    );
}

#[test]
fn violated_ir_invariant_gives_verification_error() {
    let text = "'arith.addf' op failed to verify that all of {lhs, rhs, result} have same type";
    let kind = compiler_failure_kind(text);
    assert_eq!(kind, CallFailure::Verification);
    let d = compile_failing_at(6, kind, text);
    assert_eq!(d.failure(), Some(PipelineError::Verification));
    assert_eq!(d.report.as_ref().unwrap().detail, text);
    let d = compile_failing_at(4, kind, text);
    assert_eq!(d.failure(), Some(PipelineError::Verification));
}

#[test]
fn refused_flag_is_named() {
    let d = compile_failing_at(1, CallFailure::Arguments, "unknown backend");
    assert_eq!(d.failure(), Some(PipelineError::InvalidFlag));
    let report = d.report.as_ref().unwrap();
    assert_eq!(report.subject, "--iree-hal-target-backends=llvm-cpu");
    assert_eq!(report.detail, "unknown backend");
    let d = compile_failing_at(2, CallFailure::Other, "");
    assert_eq!(d.report.as_ref().unwrap().subject, "--iree-input-type=auto");
}

#[test]
fn failure_kinds_read_from_diagnostics() {
    assert_eq!(compiler_failure_kind("op failed to verify that types match"), CallFailure::Verification);
    assert_eq!(compiler_failure_kind("failed to legalize operation"), CallFailure::Other);
    assert_eq!(
        runtime_failure_kind("INVALID_ARGUMENT; input list and function mismatch"),
        CallFailure::Arguments
    );
    assert_eq!(runtime_failure_kind("RESOURCE_EXHAUSTED; out of memory"), CallFailure::Other);
}

#[test]
fn mentions_finds_contiguous_runs() {
    assert!(mentions(b"abcdef", b"cde"));
    assert!(mentions(b"abc", b"abc"));
    assert!(mentions(b"abc", b""));
    assert!(!mentions(b"abc", b"abcd"));
    assert!(!mentions(b"abdc", b"dcx"));
    assert!(!mentions(b"acb", b"ab"));
}

#[test]
fn arity_mismatch_is_invocation_error() {
    assert_eq!(check_arity(1, 1), Ok(()));
    assert_eq!(check_arity(0, 1), Err(PipelineError::Invocation));
    assert_eq!(check_arity(2, 1), Err(PipelineError::Invocation));
}

#[test]
fn run_steps_in_order_when_all_succeed() {
    let mut d = RunDriver::new(1228800, 1);
    assert!(matches!(d.next_action(), RunAction::CreateInstance));
    d.record(Outcome::Succeeded);
    match d.next_action() {
        RunAction::CreateDevice(name) => assert_eq!(name, "local-task"),
        other => panic!("unexpected {:?}", other),
    }
    d.record(Outcome::Succeeded);
    assert!(matches!(d.next_action(), RunAction::CreateSession));
    d.record(Outcome::Succeeded);
    assert!(matches!(d.next_action(), RunAction::AppendModule));
    assert!(!d.module_appended);
    d.record(Outcome::Succeeded);
    assert!(d.module_appended);
    match d.next_action() {
        RunAction::LookupFunction(name) => assert_eq!(name, "module.main_graph"),
        other => panic!("unexpected {:?}", other),
    }
    d.record(Outcome::Succeeded);
    assert!(matches!(d.next_action(), RunAction::CreateInputList(1)));
    d.record(Outcome::Succeeded);
    match d.next_action() {
        RunAction::CreateInputBuffer(shape) => assert_eq!(shape, vec![1, 640, 640, 3]),
        other => panic!("unexpected {:?}", other),
    }
    d.record(Outcome::Succeeded);
    assert!(matches!(d.next_action(), RunAction::PushInput));
    d.record(Outcome::Succeeded);
    assert_eq!(d.inputs_pushed, 1);
    assert!(matches!(d.next_action(), RunAction::CreateOutputList(1)));
    d.record(Outcome::Succeeded);
    assert!(matches!(d.next_action(), RunAction::Invoke));
    d.record(Outcome::Succeeded);
    assert!(matches!(d.next_action(), RunAction::ReadOutput(0)));
    d.record(Outcome::Succeeded);
    assert!(matches!(d.next_action(), RunAction::MapOutput));
    d.record(Outcome::Succeeded);
    assert!(d.is_finished());
    assert!(matches!(d.next_action(), RunAction::Stop));
}

fn run_failing_at(step: usize, kind: CallFailure) -> RunDriver {
    let mut d = RunDriver::new(1228800, 1);
    for i in 0..12 {
        let _ = d.next_action();
        if i == step {
            d.record(failed(kind, "status"));
        } else {
            d.record(Outcome::Succeeded);
        }
    }
    d
}

#[test]
fn run_failures_are_typed() {
    let other = CallFailure::Other;
    assert_eq!(run_failing_at(0, other).failure(), Some(PipelineError::NoDriversAvailable));
    assert_eq!(run_failing_at(1, other).failure(), Some(PipelineError::DeviceCreation));
    assert_eq!(run_failing_at(3, other).failure(), Some(PipelineError::ModuleLoad));
    assert_eq!(run_failing_at(4, other).failure(), Some(PipelineError::FunctionNotFound));
    assert_eq!(run_failing_at(4, other).report.unwrap().subject, "module.main_graph");
    assert_eq!(run_failing_at(9, other).failure(), Some(PipelineError::Runtime));
    assert_eq!(run_failing_at(10, CallFailure::Arguments).failure(), Some(PipelineError::TypeMismatch));
    assert_eq!(run_failing_at(11, other).failure(), Some(PipelineError::Mapping));
}

#[test]
fn invoke_refused_for_arguments_is_invocation_error() {
    let d = run_failing_at(9, CallFailure::Arguments);
    assert_eq!(d.failure(), Some(PipelineError::Invocation));
    assert_eq!(d.report.as_ref().unwrap().detail, "status");
}

#[test]
fn declared_arity_other_than_one_never_invokes() {
    for declared in [0usize, 2, 3] {
        let mut d = RunDriver::new(1228800, declared);
        for _ in 0..9 {
            let _ = d.next_action();
            d.record(Outcome::Succeeded);
        }
        assert!(matches!(d.next_action(), RunAction::Stop));
        assert_eq!(d.failure(), Some(PipelineError::Invocation));
        assert_eq!(d.report.as_ref().unwrap().subject, "module.main_graph");
    }
}

#[test]
fn failed_module_load_never_looks_up() {
    let mut d = RunDriver::new(1228800, 1);
    for _ in 0..3 {
        let _ = d.next_action();
        d.record(Outcome::Succeeded);
    }
    assert!(matches!(d.next_action(), RunAction::AppendModule));
    d.record(failed(CallFailure::Other, "bad flatbuffer"));
    assert!(!d.module_appended);
    assert!(matches!(d.next_action(), RunAction::Stop));
    assert_eq!(d.failure(), Some(PipelineError::ModuleLoad));
}

#[test]
fn wrong_data_length_stops_before_buffer() {
    let mut d = RunDriver::new(1000, 1);
    for _ in 0..6 {
        let _ = d.next_action();
        d.record(Outcome::Succeeded);
    }
    assert!(matches!(d.next_action(), RunAction::Stop));
    assert_eq!(d.progress, Progress::Failed(PipelineError::ShapeMismatch));
}

#[test]
fn error_categories_and_retry() {
    assert_eq!(PipelineError::InvalidFlag.category(), ErrorCategory::Configuration);
    assert_eq!(PipelineError::Parse.category(), ErrorCategory::Compilation);
    assert_eq!(PipelineError::DeviceCreation.category(), ErrorCategory::Device);
    assert_eq!(PipelineError::ModuleLoad.category(), ErrorCategory::Artifact);
    assert_eq!(PipelineError::Invocation.category(), ErrorCategory::Artifact);
    assert_eq!(PipelineError::Allocation.category(), ErrorCategory::Allocation);
    assert_eq!(PipelineError::Io.category(), ErrorCategory::Io);
    assert!(!PipelineError::Compilation.is_retriable());
    assert!(!PipelineError::ModuleLoad.is_retriable());
    assert!(PipelineError::DeviceCreation.is_retriable());
    assert!(PipelineError::Allocation.is_retriable());
    assert!(PipelineError::Io.is_retriable());
}
