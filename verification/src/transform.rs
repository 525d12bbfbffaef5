//! The transformation of an assembled source into a pipeline, stage by
//! stage: the front end compiles it to SPIR-V, the back end translates the
//! SPIR-V to the backend's native language, and the backend builds the
//! pipeline object. Each stage either hands its result to the next or ends
//! the transformation with a failure of its own kind. The native source is
//! kept in the cache, and taken from there when it is present.

use vstd::prelude::*;
use vstd::string::*;

use crate::layout::{native_path, native_path_of};

verus! {

/// The stage that the entry point of a source belongs to.
#[derive(Debug, PartialEq, Eq, Structural, Copy, Clone)]
pub enum EntryStage {
    Fragment,
    Compute,
}

/// Why a transformation produced no pipeline.
#[derive(Debug)]
pub enum TransformError {
    /// The front end refused the source.
    FrontEnd(String),
    /// The back end could not translate the intermediate code.
    CrossCompile(String),
    /// The backend could not build a pipeline from the native module.
    PipelineBuild(String),
}

/// A failure of a transformation as contracts speak of it.
pub enum TransformErrorView {
    FrontEnd(Seq<char>),
    CrossCompile(Seq<char>),
    PipelineBuild(Seq<char>),
}

impl View for TransformError {
    type V = TransformErrorView;

    open spec fn view(&self) -> TransformErrorView {
        match self {
            TransformError::FrontEnd(m) => TransformErrorView::FrontEnd(m@),
            TransformError::CrossCompile(m) => TransformErrorView::CrossCompile(m@),
            TransformError::PipelineBuild(m) => TransformErrorView::PipelineBuild(m@),
        }
    }
}

impl TransformErrorView {
    /// The words of the stage that failed.
    pub open spec fn message(self) -> Seq<char> {
        match self {
            TransformErrorView::FrontEnd(m) => m,
            TransformErrorView::CrossCompile(m) => m,
            TransformErrorView::PipelineBuild(m) => m,
        }
    }
}

impl TransformError {
    /// The words of the stage that failed, as they are recorded in the
    /// failure memo.
    pub fn message(&self) -> (text: &str)
        ensures
            text@ == self@.message(),
    {
        match self {
            TransformError::FrontEnd(m) => m.as_str(),
            TransformError::CrossCompile(m) => m.as_str(),
            TransformError::PipelineBuild(m) => m.as_str(),
        }
    }
}

/// How the back end failed.
#[derive(Debug)]
pub enum CrossCompileFailure {
    /// It gave no reason.
    Unhandled,
    /// It refused the module, for this reason.
    Compilation(String),
}

/// What the back end reported, with every text taken by its view: the
/// translation, or the failure with its reason if it gave one.
pub open spec fn translation_view(r: Result<String, CrossCompileFailure>) -> Result<
    Seq<char>,
    Option<Seq<char>>,
> {
    match r {
        Ok(text) => Ok(text@),
        Err(CrossCompileFailure::Unhandled) => Err(None),
        Err(CrossCompileFailure::Compilation(reason)) => Err(Some(reason@)),
    }
}

/// What a failed front end is reported as.
pub open spec fn front_end_failure() -> TransformErrorView {
    TransformErrorView::FrontEnd("shaderc compilation to SPIRV failed"@)
}

/// What the outcome of the back end means for the transformation.
pub open spec fn cross_compile_outcome(translation: Result<Seq<char>, Option<Seq<char>>>) -> Result<
    Seq<char>,
    TransformErrorView,
> {
    match translation {
        Ok(text) => Ok(text),
        Err(None) => Err(TransformErrorView::CrossCompile("spirv-cross handled error"@)),
        Err(Some(reason)) => Err(TransformErrorView::CrossCompile("spirv-cross error: "@ + reason)),
    }
}

/// What became of a native library: it is usable as soon as the toolchain
/// delivered one, whatever it said besides; without one, the toolchain's
/// words are the reason, if it had any.
pub open spec fn library_outcome_of(present: bool, said: Option<Seq<char>>) -> Result<
    (),
    TransformErrorView,
> {
    if present {
        Ok(())
    } else {
        match said {
            Some(reason) => Err(TransformErrorView::PipelineBuild(reason)),
            None => Err(TransformErrorView::PipelineBuild("Unknown metal library failure"@)),
        }
    }
}

/// What became of a pipeline object: a complaint of the toolchain is a
/// failure, and so is an object that is missing without any complaint.
pub open spec fn pipeline_outcome_of(present: bool, said: Option<Seq<char>>) -> Result<
    (),
    TransformErrorView,
> {
    match said {
        Some(reason) => Err(TransformErrorView::PipelineBuild(reason)),
        None => if present {
            Ok(())
        } else {
            Err(
                TransformErrorView::PipelineBuild(
                    "newRenderPipelineStateWithDescriptor returned null"@,
                ),
            )
        },
    }
}

/// The view of an optional text.
pub open spec fn said_view(said: Option<String>) -> Option<Seq<char>> {
    match said {
        Some(text) => Some(text@),
        None => None,
    }
}

/// The view of the outcome of a stage.
pub open spec fn outcome_view<T>(r: Result<T, TransformError>) -> Result<T, TransformErrorView> {
    match r {
        Ok(value) => Ok(value),
        Err(e) => Err(e@),
    }
}

/// Judges what the back end made of a module.
pub fn judge_translation(translation: Result<String, CrossCompileFailure>) -> (r: Result<
    String,
    TransformError,
>)
    ensures
        match r {
            Ok(text) => cross_compile_outcome(translation_view(translation)) == Ok::<
                Seq<char>,
                TransformErrorView,
            >(text@),
            Err(e) => cross_compile_outcome(translation_view(translation)) == Err::<
                Seq<char>,
                TransformErrorView,
            >(e@),
        },
{
    match translation {
        Ok(text) => Ok(text),
        Err(CrossCompileFailure::Unhandled) => Err(
            TransformError::CrossCompile(String::from_str("spirv-cross handled error")),
        ),
        Err(CrossCompileFailure::Compilation(reason)) => {
            let mut text = String::from_str("spirv-cross error: ");
            text.append(reason.as_str());
            Err(TransformError::CrossCompile(text))
        },
    }
}

/// Judges the attempt to build a native library: `present` says whether the
/// toolchain delivered one, `said` what it complained of.
pub fn library_outcome(present: bool, said: Option<String>) -> (r: Result<(), TransformError>)
    ensures
        outcome_view(r) == library_outcome_of(present, said_view(said)),
{
    if present {
        return Ok(());
    }
    match said {
        Some(reason) => Err(TransformError::PipelineBuild(reason)),
        None => Err(
            TransformError::PipelineBuild(String::from_str("Unknown metal library failure")),
        ),
    }
}

/// Judges the attempt to build a pipeline object: `present` says whether
/// the toolchain delivered one, `said` what it complained of. An object is
/// accepted only if it is there and nothing was complained of.
pub fn pipeline_outcome(present: bool, said: Option<String>) -> (r: Result<(), TransformError>)
    ensures
        outcome_view(r) == pipeline_outcome_of(present, said_view(said)),
{
    match said {
        Some(reason) => Err(TransformError::PipelineBuild(reason)),
        None => {
            if present {
                Ok(())
            } else {
                Err(
                    TransformError::PipelineBuild(
                        String::from_str("newRenderPipelineStateWithDescriptor returned null"),
                    ),
                )
            }
        },
    }
}

/// What a transformation is waiting for.
#[derive(Debug, PartialEq, Eq, Structural, Copy, Clone)]
pub enum TransformPhase {
    /// The native source, from the cache.
    NativeLoad,
    /// The intermediate code, from the front end.
    FrontEnd,
    /// The native source, from the back end.
    CrossCompile,
    /// The native source to be written to the cache.
    NativeWrite,
    /// The pipeline object, from the backend.
    PipelineBuild,
    /// Nothing: the transformation has come to its end.
    Over,
}

/// What the caller reports back after carrying out a command.
#[derive(Debug)]
pub enum TransformEvent {
    /// Answer to `LoadNative`: the native source found in the cache.
    NativeLoaded(String),
    /// Answer to `LoadNative`: the cache holds none.
    NativeMissing,
    /// Answer to `CompileFrontEnd`: the SPIR-V module.
    Spirv(Vec<u32>),
    /// Answer to `CompileFrontEnd`: the front end refused the source.
    FrontEndFailed,
    /// Answer to `CrossCompile`: what the back end made of the module.
    Translated(Result<String, CrossCompileFailure>),
    /// Answer to `WriteNative`: it is done.
    Written,
    /// Answer to `BuildPipeline`: whether a pipeline object was delivered,
    /// and what the toolchain complained of.
    Pipeline { present: bool, said: Option<String> },
    /// The cache could not be read or written.
    Failed,
}

/// What the caller is asked to do next.
#[derive(Debug)]
pub enum TransformCommand {
    /// Read the native source at `path`, if there is one.
    LoadNative { path: String },
    /// Compile `source` to SPIR-V, as a unit called `name` with the entry
    /// point `entry_point` of the given stage.
    CompileFrontEnd { source: String, stage: EntryStage, name: String, entry_point: String },
    /// Translate the SPIR-V module `words` to the backend's language.
    CrossCompile { words: Vec<u32> },
    /// Write the native source `text` to `path`.
    WriteNative { path: String, text: String },
    /// Build the pipeline object from the native source, whose entry point
    /// is `entry_point`, and the shared vertex stage.
    BuildPipeline { native: String, entry_point: String },
    /// The pipeline object is good: register it.
    Succeed,
    /// The transformation failed; the failure is to be recorded.
    Fail(TransformError),
    /// The cache failed; nothing is to be recorded.
    Abort,
    /// Nothing is left to do.
    Stop,
}

/// A command as contracts speak of it.
pub enum TransformCommandView {
    LoadNative { path: Seq<char> },
    CompileFrontEnd {
        source: Seq<char>,
        stage: EntryStage,
        name: Seq<char>,
        entry_point: Seq<char>,
    },
    CrossCompile { words: Seq<u32> },
    WriteNative { path: Seq<char>, text: Seq<char> },
    BuildPipeline { native: Seq<char>, entry_point: Seq<char> },
    Succeed,
    Fail(TransformErrorView),
    Abort,
    Stop,
}

impl View for TransformCommand {
    type V = TransformCommandView;

    open spec fn view(&self) -> TransformCommandView {
        match self {
            TransformCommand::LoadNative { path } => TransformCommandView::LoadNative {
                path: path@,
            },
            TransformCommand::CompileFrontEnd {
                source,
                stage,
                name,
                entry_point,
            } => TransformCommandView::CompileFrontEnd {
                source: source@,
                stage: *stage,
                name: name@,
                entry_point: entry_point@,
            },
            TransformCommand::CrossCompile { words } => TransformCommandView::CrossCompile {
                words: words@,
            },
            TransformCommand::WriteNative { path, text } => TransformCommandView::WriteNative {
                path: path@,
                text: text@,
            },
            TransformCommand::BuildPipeline {
                native,
                entry_point,
            } => TransformCommandView::BuildPipeline {
                native: native@,
                entry_point: entry_point@,
            },
            TransformCommand::Succeed => TransformCommandView::Succeed,
            TransformCommand::Fail(e) => TransformCommandView::Fail(e@),
            TransformCommand::Abort => TransformCommandView::Abort,
            TransformCommand::Stop => TransformCommandView::Stop,
        }
    }
}

/// A transformation in progress.
#[derive(Debug)]
pub struct TransformJob {
    stem: String,
    source: String,
    stage: EntryStage,
    phase: TransformPhase,
    native: String,
}

/// The state of a transformation as contracts speak of it.
pub struct TransformJobView {
    /// The stem under which intermediate results are kept.
    pub stem: Seq<char>,
    /// The assembled source.
    pub source: Seq<char>,
    /// The stage of its entry point.
    pub stage: EntryStage,
    /// What the transformation is waiting for.
    pub phase: TransformPhase,
    /// The native source, once it is known.
    pub native: Seq<char>,
}

impl View for TransformJob {
    type V = TransformJobView;

    closed spec fn view(&self) -> TransformJobView {
        TransformJobView {
            stem: self.stem@,
            source: self.source@,
            stage: self.stage,
            phase: self.phase,
            native: self.native@,
        }
    }
}

/// The command that asks for the pipeline object of `native`.
pub open spec fn build_pipeline(native: Seq<char>) -> TransformCommandView {
    TransformCommandView::BuildPipeline { native, entry_point: "main0"@ }
}

/// The transformation comes to its end with `command`.
pub open spec fn over(job: TransformJobView, command: TransformCommandView) -> (
    TransformJobView,
    TransformCommandView,
) {
    (TransformJobView { phase: TransformPhase::Over, ..job }, command)
}

/// A transformation that has just been started, and its first command.
pub open spec fn transform_started(stem: Seq<char>, stage: EntryStage, source: Seq<char>) -> (
    TransformJobView,
    TransformCommandView,
) {
    (
        TransformJobView {
            stem,
            source,
            stage,
            phase: TransformPhase::NativeLoad,
            native: Seq::<char>::empty(),
        },
        TransformCommandView::LoadNative { path: native_path_of(stem) },
    )
}

/// What follows once the back end has dealt with the module: its
/// translation is written to the cache, or its failure ends the
/// transformation.
pub open spec fn after_translation(
    job: TransformJobView,
    outcome: Result<Seq<char>, TransformErrorView>,
) -> (TransformJobView, TransformCommandView) {
    match outcome {
        Ok(text) => (
            TransformJobView { phase: TransformPhase::NativeWrite, native: text, ..job },
            TransformCommandView::WriteNative { path: native_path_of(job.stem), text },
        ),
        Err(e) => over(job, TransformCommandView::Fail(e)),
    }
}

/// The transition function of a transformation. A stage that fails ends
/// it; no later stage is asked for.
pub open spec fn transform_step_of(job: TransformJobView, event: TransformEvent) -> (
    TransformJobView,
    TransformCommandView,
) {
    match job.phase {
        TransformPhase::Over => (job, TransformCommandView::Stop),
        TransformPhase::NativeLoad => match event {
            TransformEvent::NativeLoaded(text) => (
                TransformJobView { phase: TransformPhase::PipelineBuild, native: text@, ..job },
                build_pipeline(text@),
            ),
            TransformEvent::NativeMissing => (
                TransformJobView { phase: TransformPhase::FrontEnd, ..job },
                TransformCommandView::CompileFrontEnd {
                    source: job.source,
                    stage: job.stage,
                    name: "unknown name"@,
                    entry_point: "main"@,
                },
            ),
            _ => over(job, TransformCommandView::Abort),
        },
        TransformPhase::FrontEnd => match event {
            TransformEvent::Spirv(words) => (
                TransformJobView { phase: TransformPhase::CrossCompile, ..job },
                TransformCommandView::CrossCompile { words: words@ },
            ),
            TransformEvent::FrontEndFailed => over(
                job,
                TransformCommandView::Fail(front_end_failure()),
            ),
            _ => over(job, TransformCommandView::Abort),
        },
        TransformPhase::CrossCompile => match event {
            TransformEvent::Translated(translation) => after_translation(
                job,
                cross_compile_outcome(translation_view(translation)),
            ),
            _ => over(job, TransformCommandView::Abort),
        },
        TransformPhase::NativeWrite => match event {
            TransformEvent::Written => (
                TransformJobView { phase: TransformPhase::PipelineBuild, ..job },
                build_pipeline(job.native),
            ),
            _ => over(job, TransformCommandView::Abort),
        },
        TransformPhase::PipelineBuild => match event {
            TransformEvent::Pipeline { present, said } => match pipeline_outcome_of(
                present,
                said_view(said),
            ) {
                Ok(_) => over(job, TransformCommandView::Succeed),
                Err(e) => over(job, TransformCommandView::Fail(e)),
            },
            _ => over(job, TransformCommandView::Abort),
        },
    }
}

impl TransformJob {
    /// Starts the transformation of `source`, whose entry point belongs to
    /// `stage`; intermediate results are kept under `stem`. The first
    /// command asks for the native source in the cache.
    pub fn start(stem: String, stage: EntryStage, source: String) -> (r: (
        TransformJob,
        TransformCommand,
    ))
        ensures
            (r.0@, r.1@) == transform_started(stem@, stage, source@),
    {
        let path = native_path(stem.as_str());
        let job = TransformJob {
            stem,
            source,
            stage,
            phase: TransformPhase::NativeLoad,
            native: String::new(),
        };
        (job, TransformCommand::LoadNative { path })
    }

    /// What the transformation is waiting for.
    pub fn phase(&self) -> (phase: TransformPhase)
        ensures
            phase == self@.phase,
    {
        self.phase
    }

    fn finish(&mut self, command: TransformCommand) -> (handed: TransformCommand)
        ensures
            (final(self)@, handed@) == over(old(self)@, command@),
    {
        self.phase = TransformPhase::Over;
        command
    }

    fn translated(&mut self, outcome: Result<String, TransformError>) -> (command:
        TransformCommand)
        ensures
            (final(self)@, command@) == after_translation(
                old(self)@,
                match outcome {
                    Ok(text) => Ok(text@),
                    Err(e) => Err(e@),
                },
            ),
    {
        match outcome {
            Ok(text) => {
                let path = native_path(self.stem.as_str());
                self.native = text.clone();
                self.phase = TransformPhase::NativeWrite;
                TransformCommand::WriteNative { path, text }
            },
            Err(e) => self.finish(TransformCommand::Fail(e)),
        }
    }

    /// Takes the report on the command that was handed out last, and hands
    /// out the next one. A report that does not answer that command ends
    /// the transformation without a verdict.
    pub fn step(&mut self, event: TransformEvent) -> (command: TransformCommand)
        ensures
            (final(self)@, command@) == transform_step_of(old(self)@, event),
    {
        match self.phase {
            TransformPhase::Over => TransformCommand::Stop,
            TransformPhase::NativeLoad => match event {
                TransformEvent::NativeLoaded(text) => {
                    self.native = text.clone();
                    self.phase = TransformPhase::PipelineBuild;
                    TransformCommand::BuildPipeline {
                        native: text,
                        entry_point: String::from_str("main0"),
                    }
                },
                TransformEvent::NativeMissing => {
                    self.phase = TransformPhase::FrontEnd;
                    TransformCommand::CompileFrontEnd {
                        source: self.source.clone(),
                        stage: self.stage,
                        name: String::from_str("unknown name"),
                        entry_point: String::from_str("main"),
                    }
                },
                _ => self.finish(TransformCommand::Abort),
            },
            TransformPhase::FrontEnd => match event {
                TransformEvent::Spirv(words) => {
                    self.phase = TransformPhase::CrossCompile;
                    TransformCommand::CrossCompile { words }
                },
                TransformEvent::FrontEndFailed => {
                    let e = TransformError::FrontEnd(
                        String::from_str("shaderc compilation to SPIRV failed"),
                    );
                    self.finish(TransformCommand::Fail(e))
                },
                _ => self.finish(TransformCommand::Abort),
            },
            TransformPhase::CrossCompile => match event {
                TransformEvent::Translated(translation) => {
                    let outcome = judge_translation(translation);
                    self.translated(outcome)
                },
                _ => self.finish(TransformCommand::Abort),
            },
            TransformPhase::NativeWrite => match event {
                TransformEvent::Written => {
                    self.phase = TransformPhase::PipelineBuild;
                    TransformCommand::BuildPipeline {
                        native: self.native.clone(),
                        entry_point: String::from_str("main0"),
                    }
                },
                _ => self.finish(TransformCommand::Abort),
            },
            TransformPhase::PipelineBuild => match event {
                TransformEvent::Pipeline { present, said } => {
                    match pipeline_outcome(present, said) {
                        Ok(_) => self.finish(TransformCommand::Succeed),
                        Err(e) => self.finish(TransformCommand::Fail(e)),
                    }
                },
                _ => self.finish(TransformCommand::Abort),
            },
        }
    }
}

/// Every stage is a hard boundary: once a transformation is over, it asks
/// for nothing more, and a stage that failed is never followed by a later
/// one.
pub proof fn lemma_failure_ends_transformation(job: TransformJobView, event: TransformEvent)
    ensures
        ({
            let (next, command) = transform_step_of(job, event);
            &&& (command is Fail || command is Abort || command is Succeed || command is Stop)
                <==> next.phase == TransformPhase::Over
            &&& next.phase == TransformPhase::Over ==> forall|later: TransformEvent|
                #[trigger] transform_step_of(next, later) == (next, TransformCommandView::Stop)
            &&& command is Succeed ==> job.phase == TransformPhase::PipelineBuild
        }),
{
}

} // verus!
