use shadertoy_browser::transform::{
    judge_translation, library_outcome, pipeline_outcome, CrossCompileFailure,
    EntryStage, TransformCommand, TransformError, TransformEvent, TransformJob, TransformPhase,
};

#[test]
fn cached_native_source_skips_the_compilers() {
    let (mut job, first) = TransformJob::start(
        String::from("output/shader/a/aImage"),
        EntryStage::Fragment,
        String::from("void main(){}"),
    );
    match first {
        TransformCommand::LoadNative { path } => assert_eq!(path, "output/shader/a/aImage.metal"),
        other => panic!("unexpected {:?}", other),
    }
    match job.step(TransformEvent::NativeLoaded(String::from("native"))) {
        TransformCommand::BuildPipeline { native, entry_point } => {
            assert_eq!(native, "native");
            assert_eq!(entry_point, "main0");
        }
        other => panic!("unexpected {:?}", other),
    }
    assert!(matches!(
        job.step(TransformEvent::Pipeline { present: true, said: None }),
        TransformCommand::Succeed
    ));
    assert_eq!(job.phase(), TransformPhase::Over);
    assert!(matches!(job.step(TransformEvent::Written), TransformCommand::Stop));
}

#[test]
fn front_end_failure_ends_the_transformation() {
    let (mut job, _) = TransformJob::start(
        String::from("stem"),
        EntryStage::Fragment,
        String::from("source"),
    );
    match job.step(TransformEvent::NativeMissing) {
        TransformCommand::CompileFrontEnd { source, stage, name, entry_point } => {
            assert_eq!(source, "source");
            assert_eq!(stage, EntryStage::Fragment);
            assert_eq!(name, "unknown name");
            assert_eq!(entry_point, "main");
        }
        other => panic!("unexpected {:?}", other),
    }
    match job.step(TransformEvent::FrontEndFailed) {
        TransformCommand::Fail(TransformError::FrontEnd(message)) => {
            assert_eq!(message, "shaderc compilation to SPIRV failed")
        }
        other => panic!("unexpected {:?}", other),
    }
    assert_eq!(job.phase(), TransformPhase::Over);
}

#[test]
fn stages_follow_each_other() {
    let (mut job, _) = TransformJob::start(
        String::from("stem"),
        EntryStage::Fragment,
        String::from("source"),
    );
    job.step(TransformEvent::NativeMissing);
    match job.step(TransformEvent::Spirv(vec![7, 8, 9])) {
        TransformCommand::CrossCompile { words } => assert_eq!(words, vec![7, 8, 9]),
        other => panic!("unexpected {:?}", other),
    }
    assert_eq!(job.phase(), TransformPhase::CrossCompile);
    match job.step(TransformEvent::Translated(Ok(String::from("msl")))) {
        TransformCommand::WriteNative { path, text } => {
            assert_eq!(path, "stem.metal");
            assert_eq!(text, "msl");
        }
        other => panic!("unexpected {:?}", other),
    }
    match job.step(TransformEvent::Written) {
        TransformCommand::BuildPipeline { native, entry_point } => {
            assert_eq!(native, "msl");
            assert_eq!(entry_point, "main0");
        }
        other => panic!("unexpected {:?}", other),
    }
    match job.step(TransformEvent::Pipeline { present: false, said: None }) {
        TransformCommand::Fail(TransformError::PipelineBuild(m)) => {
            assert_eq!(m, "newRenderPipelineStateWithDescriptor returned null")
        }
        other => panic!("unexpected {:?}", other),
    }
    assert_eq!(job.phase(), TransformPhase::Over);
}

#[test]
fn back_end_failure_ends_the_transformation() {
    let (mut job, _) = TransformJob::start(
        String::from("stem"),
        EntryStage::Fragment,
        String::from("source"),
    );
    job.step(TransformEvent::NativeMissing);
    job.step(TransformEvent::Spirv(vec![1, 2, 3]));
    match job.step(TransformEvent::Translated(Err(CrossCompileFailure::Compilation(
        String::from("no entry point"),
    )))) {
        TransformCommand::Fail(TransformError::CrossCompile(m)) => {
            assert_eq!(m, "spirv-cross error: no entry point")
        }
        other => panic!("unexpected {:?}", other),
    }
    assert_eq!(job.phase(), TransformPhase::Over);
    assert!(matches!(job.step(TransformEvent::Written), TransformCommand::Stop));
}

#[test]
fn cache_failure_gives_no_verdict() {
    let (mut job, _) = TransformJob::start(
        String::from("stem"),
        EntryStage::Fragment,
        String::from("source"),
    );
    assert!(matches!(job.step(TransformEvent::Failed), TransformCommand::Abort));
    assert_eq!(job.phase(), TransformPhase::Over);
}

#[test]
fn translation_outcomes() {
    assert_eq!(judge_translation(Ok(String::from("msl"))).unwrap(), "msl");
    match judge_translation(Err(CrossCompileFailure::Unhandled)) {
        Err(TransformError::CrossCompile(m)) => assert_eq!(m, "spirv-cross handled error"),
        other => panic!("unexpected {:?}", other),
    }
    match judge_translation(Err(CrossCompileFailure::Compilation(String::from("bad")))) {
        Err(TransformError::CrossCompile(m)) => assert_eq!(m, "spirv-cross error: bad"),
        other => panic!("unexpected {:?}", other),
    }
}

#[test]
fn null_pipeline_object_is_a_failure() {
    assert!(pipeline_outcome(true, None).is_ok());
    match pipeline_outcome(false, None) {
        Err(TransformError::PipelineBuild(m)) => {
            assert_eq!(m, "newRenderPipelineStateWithDescriptor returned null")
        }
        other => panic!("unexpected {:?}", other),
    }
    match pipeline_outcome(true, Some(String::from("complaint"))) {
        Err(TransformError::PipelineBuild(m)) => assert_eq!(m, "complaint"),
        other => panic!("unexpected {:?}", other),
    }
}

#[test]
fn library_with_warnings_is_accepted() {
    assert!(library_outcome(true, Some(String::from("warning: unused"))).is_ok());
    match library_outcome(false, Some(String::from("error: x"))) {
        Err(TransformError::PipelineBuild(m)) => assert_eq!(m, "error: x"),
        other => panic!("unexpected {:?}", other),
    }
    match library_outcome(false, None) {
        Err(e) => assert_eq!(e.message(), "Unknown metal library failure"),
        other => panic!("unexpected {:?}", other),
    }
}
