use onnxruntime::element::TensorElementDataType;
use onnxruntime::env::EnvironmentCount;
use onnxruntime::error::{status_to_result, ConfigurationError, OrtError};
use onnxruntime::handle::HandleGuard;
use onnxruntime::session::{
    is_path_encodable, read_inputs_count, BuildAction, BuildEvent, BuildStage, Dimension,
    GraphOptimizationLevel, Input, InputsReader, SessionBuilder, SessionOptions,
};

fn builder(path: &str) -> SessionBuilder {
    SessionBuilder::new("test".to_string(), path.to_string())
}

#[test]
fn build_all_steps_succeed() {
    let mut b = builder("squeezenet.onnx")
        .with_number_threads(4)
        .with_optimization_level(GraphOptimizationLevel::All);
    assert!(matches!(b.step(BuildEvent::Started), BuildAction::CreateSessionOptions));
    match b.step(BuildEvent::Status(None)) {
        BuildAction::Configure { num_threads, opt_level } => {
            assert_eq!(num_threads, 4);
            assert_eq!(opt_level, 99);
        }
        other => panic!("unexpected {:?}", other),
    }
    match b.step(BuildEvent::Configured) {
        BuildAction::CheckModelPath { path } => assert_eq!(path, "squeezenet.onnx"),
        other => panic!("unexpected {:?}", other),
    }
    match b.step(BuildEvent::PathChecked(true)) {
        BuildAction::CreateSession { path } => assert_eq!(path, "squeezenet.onnx"),
        other => panic!("unexpected {:?}", other),
    }
    assert!(matches!(b.step(BuildEvent::Status(None)), BuildAction::GetAllocator));
    assert!(matches!(b.step(BuildEvent::Status(None)), BuildAction::Finish));
    assert_eq!(b.build_stage(), BuildStage::Done);
}

#[test]
fn build_missing_file_fails_with_path() {
    let mut b = builder("/no/such/model.onnx");
    b.step(BuildEvent::Started);
    b.step(BuildEvent::Status(None));
    b.step(BuildEvent::Configured);
    match b.step(BuildEvent::PathChecked(false)) {
        BuildAction::Fail { error: OrtError::FileDoesNotExists { filename }, release_options, release_session } => {
            assert_eq!(filename, "/no/such/model.onnx");
            assert!(release_options);
            assert!(!release_session);
        }
        other => panic!("unexpected {:?}", other),
    }
    assert_eq!(b.build_stage(), BuildStage::Done);
}

#[test]
fn build_options_failure_releases_nothing() {
    let mut b = builder("m.onnx");
    b.step(BuildEvent::Started);
    match b.step(BuildEvent::Status(Some("out of memory".to_string()))) {
        BuildAction::Fail { error: OrtError::SessionOptions(m), release_options, release_session } => {
            assert_eq!(m, "out of memory");
            assert!(!release_options);
            assert!(!release_session);
        }
        other => panic!("unexpected {:?}", other),
    }
}

#[test]
fn build_session_failure_releases_options() {
    let mut b = builder("m.onnx");
    b.step(BuildEvent::Started);
    b.step(BuildEvent::Status(None));
    b.step(BuildEvent::Configured);
    b.step(BuildEvent::PathChecked(true));
    match b.step(BuildEvent::Status(Some("bad model".to_string()))) {
        BuildAction::Fail { error: OrtError::Session(m), release_options, release_session } => {
            assert_eq!(m, "bad model");
            assert!(release_options);
            assert!(!release_session);
        }
        other => panic!("unexpected {:?}", other),
    }
}

#[test]
fn build_allocator_failure_releases_both() {
    let mut b = builder("m.onnx");
    b.step(BuildEvent::Started);
    b.step(BuildEvent::Status(None));
    b.step(BuildEvent::Configured);
    b.step(BuildEvent::PathChecked(true));
    b.step(BuildEvent::Status(None));
    match b.step(BuildEvent::Status(Some("no allocator".to_string()))) {
        BuildAction::Fail { error: OrtError::Allocator(m), release_options, release_session } => {
            assert_eq!(m, "no allocator");
            assert!(release_options);
            assert!(release_session);
        }
        other => panic!("unexpected {:?}", other),
    }
}

#[test]
fn build_path_with_nul_is_refused() {
    let mut b = builder("bad\0name.onnx");
    b.step(BuildEvent::Started);
    b.step(BuildEvent::Status(None));
    b.step(BuildEvent::Configured);
    match b.step(BuildEvent::PathChecked(true)) {
        BuildAction::Fail { error: OrtError::InvalidPath { path }, release_options, .. } => {
            assert_eq!(path, "bad\0name.onnx");
            assert!(release_options);
        }
        other => panic!("unexpected {:?}", other),
    }
    assert!(!is_path_encodable("a\0b"));
    assert!(is_path_encodable("model.onnx"));
    assert!(is_path_encodable(""));
}

#[test]
fn build_unsupported_configuration() {
    let mut b = builder("m.onnx").with_cuda(true);
    match b.step(BuildEvent::Started) {
        BuildAction::Fail { error: OrtError::Configuration(c), release_options, release_session } => {
            assert_eq!(c, ConfigurationError::UnsupportedCuda);
            assert!(!release_options && !release_session);
        }
        other => panic!("unexpected {:?}", other),
    }
    let mut b = builder("m.onnx").with_options(SessionOptions::new("x".to_string()));
    assert!(matches!(
        b.step(BuildEvent::Started),
        BuildAction::Fail { error: OrtError::Configuration(ConfigurationError::UnsupportedOptions), .. }
    ));
    let mut b = builder("m.onnx").with_number_threads(0);
    assert!(matches!(
        b.step(BuildEvent::Started),
        BuildAction::Fail {
            error: OrtError::Configuration(ConfigurationError::InvalidThreadCount { num_threads: 0 }),
            ..
        }
    ));
    let mut b = builder("m.onnx").with_number_threads(i16::MAX);
    match b.step(BuildEvent::Started) {
        BuildAction::CreateSessionOptions => {}
        other => panic!("unexpected {:?}", other),
    }
    match b.step(BuildEvent::Status(None)) {
        BuildAction::Configure { num_threads, opt_level } => {
            assert_eq!(num_threads, 32767);
            assert_eq!(opt_level, 1);
        }
        other => panic!("unexpected {:?}", other),
    }
}

#[test]
fn optimization_level_ordinals() {
    assert_eq!(GraphOptimizationLevel::DisableAll.ordinal(), 0);
    assert_eq!(GraphOptimizationLevel::Basic.ordinal(), 1);
    assert_eq!(GraphOptimizationLevel::Extended.ordinal(), 2);
    assert_eq!(GraphOptimizationLevel::All.ordinal(), 99);
}

#[test]
fn status_translation() {
    assert!(status_to_result(None).is_ok());
    assert_eq!(status_to_result(Some("boom".to_string())), Err("boom".to_string()));
}

#[test]
fn inputs_count() {
    assert_eq!(read_inputs_count(None, 1).unwrap(), 1);
    match read_inputs_count(Some("failed".to_string()), 0) {
        Err(OrtError::Allocator(m)) => assert_eq!(m, "failed"),
        other => panic!("unexpected {:?}", other),
    }
}

#[test]
fn classification_model_input() {
    let dims: Vec<i64> = vec![1, 3, 224, 224];
    let input = Input::from_native("data_0".to_string(), 1, &dims).unwrap();
    assert_eq!(input.name(), "data_0");
    assert_eq!(input.input_type(), TensorElementDataType::Float);
    assert_eq!(
        input.dimensions(),
        &vec![Dimension::Fixed(1), Dimension::Fixed(3), Dimension::Fixed(224), Dimension::Fixed(224)]
    );
}

#[test]
fn dynamic_dimensions_are_kept() {
    let dims: Vec<i64> = vec![-1, 3, -1, 0];
    let input = Input::from_native("x".to_string(), 7, &dims).unwrap();
    assert_eq!(input.input_type(), TensorElementDataType::Int64);
    assert_eq!(
        input.dimensions(),
        &vec![Dimension::Dynamic, Dimension::Fixed(3), Dimension::Dynamic, Dimension::Fixed(0)]
    );
    assert_eq!(input.dimensions().len(), dims.len());
}

#[test]
fn unknown_element_type_code_is_refused() {
    let dims: Vec<i64> = vec![1];
    for code in [0u32, 9, 10, 14, 17, 1000] {
        match Input::from_native("x".to_string(), code, &dims) {
            Err(OrtError::UnknownElementType { code: c }) => assert_eq!(c, code),
            other => panic!("unexpected {:?}", other),
        }
    }
}

#[test]
fn inputs_reader_stops_at_first_error() {
    let dims: Vec<i64> = vec![2];
    let mut reader = InputsReader::new(3);
    assert_eq!(reader.next_index(), Some(0));
    assert!(reader.accept(Input::from_native("a".to_string(), 1, &dims)).is_ok());
    assert_eq!(reader.next_index(), Some(1));
    match reader.accept(Err(OrtError::InputName("gone".to_string()))) {
        Err(OrtError::InputName(m)) => assert_eq!(m, "gone"),
        other => panic!("unexpected {:?}", other),
    }
    assert_eq!(reader.next_index(), Some(1));
}

#[test]
fn inputs_reader_collects_in_order() {
    let dims: Vec<i64> = vec![2];
    let mut reader = InputsReader::new(2);
    while let Some(i) = reader.next_index() {
        let name = format!("in{}", i);
        reader.accept(Input::from_native(name, 6, &dims)).unwrap();
    }
    let inputs = reader.finish();
    assert_eq!(inputs.len(), 2);
    assert_eq!(inputs[0].name(), "in0");
    assert_eq!(inputs[1].name(), "in1");
}

#[test]
fn guard_releases_once() {
    let mut g = HandleGuard::new(42u64);
    assert!(!g.is_released());
    assert_eq!(g.release(), Some(42));
    assert!(g.is_released());
    assert_eq!(g.release(), None);
    assert_eq!(g.release(), None);
}

#[test]
fn guard_release_count_over_paths() {
    let mut released = 0;
    for early_error in [false, true] {
        let mut g = HandleGuard::new("type info");
        if early_error {
            if let Some(_) = g.release() {
                released += 1;
            }
        }
        for _ in 0..3 {
            if let Some(_) = g.release() {
                released += 1;
            }
        }
    }
    assert_eq!(released, 2);
}

#[test]
fn environment_is_shared_and_torn_down_last() {
    let mut env = EnvironmentCount::new("env".to_string());
    assert_eq!(env.name(), "env");
    assert!(env.needs_creation());
    assert!(env.acquire(None).is_ok());
    assert!(!env.needs_creation());
    assert!(env.acquire(None).is_ok());
    assert_eq!(env.references(), 2);
    assert!(!env.release());
    assert!(env.release());
    assert_eq!(env.references(), 0);
}

#[test]
fn environment_creation_failure() {
    let mut env = EnvironmentCount::new("env".to_string());
    match env.acquire(Some("cannot create".to_string())) {
        Err(OrtError::Environment(m)) => assert_eq!(m, "cannot create"),
        other => panic!("unexpected {:?}", other),
    }
    assert_eq!(env.references(), 0);
}

#[test]
fn guard_lends_handle_until_released() {
    let mut g = HandleGuard::new(5u32);
    assert_eq!(g.handle(), Some(&5));
    assert_eq!(g.release(), Some(5));
    assert_eq!(g.handle(), None);
}
