//! Ingestion of one catalog entry, as a state machine. The job decides what
//! happens next: probe the cache, fetch, store, assemble, build, download;
//! and hands out one command at a time; the caller carries the command out
//! and reports the result as an event. The job itself touches neither disk,
//! network nor GPU.

use vstd::prelude::*;
use vstd::string::*;
use vstd::utf8::encode_utf8;
use crate::assemble::{
    assemble, assembled_source, first_unknown, inputs_known, lemma_first_unknown, ContentClass,
    SourceTemplate,
};
use crate::layout::{
    asset_path, asset_path_of, asset_url, asset_url_of, definition_path, definition_path_of,
    failure_memo_path, failure_memo_path_of, pass_stem, pass_stem_of, source_path, source_path_of,
};
use crate::text::str_eq;
use crate::types::{RenderPass, RenderPassInput, Shader};

verus! {

/// What an ingestion run is configured with.
#[derive(Debug, Clone)]
pub struct IngestConfig {
    /// Identifiers of shaders that are never handed to the compiler.
    pub denylist: Vec<String>,
    /// Version of the pipeline format; failure memos of another version are
    /// not consulted.
    pub format_version: u64,
    /// Whether a render backend is present to build pipelines with.
    pub build: bool,
    /// The fixed parts of every assembled source.
    pub template: SourceTemplate,
}

/// Whether `id` is on `denylist`.
pub open spec fn denylisted(denylist: Seq<String>, id: Seq<char>) -> bool {
    exists|i: int| 0 <= i < denylist.len() && (#[trigger] denylist[i])@ == id
}

/// Whether pass `p` of `shader` is compiled into a pipeline: it is the only
/// pass of the shader, an image pass, and reads no inputs.
pub open spec fn eligible(shader: Shader, p: int) -> bool {
    &&& shader.renderpass@.len() == 1
    &&& 0 <= p < shader.renderpass@.len()
    &&& shader.renderpass@[p].pass_type@ == "image"@
    &&& shader.renderpass@[p].inputs@.len() == 0
}

/// The shaders that are known to keep the front end busy without end.
pub fn default_denylist() -> (list: Vec<String>)
    ensures
        list@.len() == 6,
        list@[0]@ == "XdsBzj"@,
        list@[1]@ == "XtlSD7"@,
        list@[2]@ == "MlB3Wt"@,
        list@[3]@ == "4ssfzj"@,
        list@[4]@ == "XllSWf"@,
        list@[5]@ == "4td3z4"@,
{
    let mut list: Vec<String> = Vec::new();
    list.push(String::from_str("XdsBzj"));
    list.push(String::from_str("XtlSD7"));
    list.push(String::from_str("MlB3Wt"));
    list.push(String::from_str("4ssfzj"));
    list.push(String::from_str("XllSWf"));
    list.push(String::from_str("4td3z4"));
    list
}

impl IngestConfig {
    /// The configuration of the viewer as shipped: the known denylist,
    /// pipeline format 1.
    pub fn new(template: SourceTemplate, build: bool) -> (config: IngestConfig)
        ensures
            config.template == template,
            config.build == build,
            config.format_version == 1,
            config.denylist@.len() == 6,
            config.denylist@[0]@ == "XdsBzj"@,
            config.denylist@[1]@ == "XtlSD7"@,
            config.denylist@[2]@ == "MlB3Wt"@,
            config.denylist@[3]@ == "4ssfzj"@,
            config.denylist@[4]@ == "XllSWf"@,
            config.denylist@[5]@ == "4td3z4"@,
            denylisted(config.denylist@, "XdsBzj"@),
            denylisted(config.denylist@, "XtlSD7"@),
            denylisted(config.denylist@, "MlB3Wt"@),
            denylisted(config.denylist@, "4ssfzj"@),
            denylisted(config.denylist@, "XllSWf"@),
            denylisted(config.denylist@, "4td3z4"@),
    {
        let denylist = default_denylist();
        assert(denylist@[0]@ == "XdsBzj"@);
        assert(denylist@[1]@ == "XtlSD7"@);
        assert(denylist@[2]@ == "MlB3Wt"@);
        assert(denylist@[3]@ == "4ssfzj"@);
        assert(denylist@[4]@ == "XllSWf"@);
        assert(denylist@[5]@ == "4td3z4"@);
        IngestConfig { denylist, format_version: 1, build, template }
    }

    /// Whether the shader `id` must not be handed to the compiler.
    pub fn is_denylisted(&self, id: &str) -> (listed: bool)
        ensures
            listed == denylisted(self.denylist@, id@),
    {
        let mut i: usize = 0;
        while i < self.denylist.len()
            invariant
                i <= self.denylist.len(),
                forall|k: int| 0 <= k < i ==> (#[trigger] self.denylist@[k])@ != id@,
            decreases self.denylist.len() - i,
        {
            if str_eq(self.denylist[i].as_str(), id) {
                return true;
            }
            i += 1;
        }
        false
    }
}

/// Decides whether pass `p` of `shader` is compiled into a pipeline.
pub fn is_eligible(shader: &Shader, p: usize) -> (yes: bool)
    ensures
        yes == eligible(*shader, p as int),
{
    if shader.renderpass.len() != 1 || p >= shader.renderpass.len() {
        return false;
    }
    let pass = &shader.renderpass[p];
    str_eq(pass.pass_type.as_str(), "image") && pass.inputs.len() == 0
}

/// Why a job gave up on its entry.
#[derive(Debug, PartialEq, Eq, Structural, Copy, Clone)]
pub enum AbortReason {
    /// A command could not be carried out: the network, the disk or the
    /// decoding of a record failed.
    Failed,
    /// An input of a pass has a content class that the assembler does not
    /// know.
    UnknownContentClass { pass: usize, input: usize },
    /// The event reported does not answer the command that was handed out.
    Unexpected,
}

/// What the job is waiting for.
#[derive(Debug, PartialEq, Eq, Structural, Copy, Clone)]
pub enum Phase {
    /// Whether the definition is in the cache.
    DefinitionProbe,
    /// The definition, from the catalog.
    DefinitionFetch,
    /// The fetched definition to be stored in the cache.
    DefinitionStore,
    /// The definition, from the cache.
    DefinitionLoad,
    /// The assembled source of the current pass to be written.
    SourceWrite,
    /// Whether the current pass is known to fail.
    MemoProbe,
    /// The pipeline of the current pass.
    Build,
    /// The failure of the current pass to be recorded.
    MemoWrite,
    /// Whether the asset of the current input is in the cache.
    AssetProbe,
    /// The asset of the current input, from the catalog's server.
    AssetFetch,
    /// The asset of the current input to be written.
    AssetWrite,
    /// Nothing: every pass has been dealt with.
    Finished,
    /// Nothing: the entry was given up.
    Aborted(AbortReason),
}

/// What became of the entry's pipeline.
#[derive(Debug, PartialEq, Eq, Structural, Copy, Clone)]
pub enum BuildStatus {
    /// No pass was eligible, or the job has not come that far.
    NotAttempted,
    /// The shader is on the denylist.
    Denylisted,
    /// No render backend is present.
    NoBackend,
    /// The source is on record as failing; it was not built again.
    KnownFailure,
    /// The build was attempted and failed.
    Failed,
    /// The pipeline was built and registered under this handle.
    Built(usize),
}

/// What the caller reports back after carrying out a command.
#[derive(Debug)]
pub enum Event {
    /// Answer to `Probe`: whether the path exists.
    Probed(bool),
    /// Answer to `FetchDefinition` and `LoadDefinition`: the definition.
    Definition(Shader),
    /// Answer to `StoreDefinition` and `Write`: it is done.
    Done,
    /// Answer to `Build`: the pipeline was registered under this handle.
    Built(usize),
    /// Answer to `Build`: the build failed, for this reason.
    BuildFailed(String),
    /// Answer to `FetchAsset`: the bytes of the asset.
    Asset(Vec<u8>),
    /// The command could not be carried out.
    Failed,
}

/// What the caller is asked to do next.
#[derive(Debug)]
pub enum Command {
    /// Report whether `path` exists in the cache.
    Probe { path: String },
    /// Fetch the definition of the shader `id` from the catalog.
    FetchDefinition { id: String },
    /// Store the definition that was just fetched under `path`.
    StoreDefinition { path: String },
    /// Load the definition stored under `path`.
    LoadDefinition { path: String },
    /// Write `contents` to `path`, creating what lies above it.
    Write { path: String, contents: Vec<u8> },
    /// Transform `source` and register the resulting pipeline; intermediate
    /// results are kept under `stem`.
    Build { stem: String, source: String },
    /// Download the asset at `url`.
    FetchAsset { url: String },
    /// Nothing is left to do for this entry.
    Stop,
}

/// A command as contracts speak of it.
pub enum CommandView {
    Probe { path: Seq<char> },
    FetchDefinition { id: Seq<char> },
    StoreDefinition { path: Seq<char> },
    LoadDefinition { path: Seq<char> },
    Write { path: Seq<char>, contents: Seq<u8> },
    Build { stem: Seq<char>, source: Seq<char> },
    FetchAsset { url: Seq<char> },
    Stop,
}

impl View for Command {
    type V = CommandView;

    open spec fn view(&self) -> CommandView {
        match self {
            Command::Probe { path } => CommandView::Probe { path: path@ },
            Command::FetchDefinition { id } => CommandView::FetchDefinition { id: id@ },
            Command::StoreDefinition { path } => CommandView::StoreDefinition { path: path@ },
            Command::LoadDefinition { path } => CommandView::LoadDefinition { path: path@ },
            Command::Write { path, contents } => CommandView::Write {
                path: path@,
                contents: contents@,
            },
            Command::Build { stem, source } => CommandView::Build { stem: stem@, source: source@ },
            Command::FetchAsset { url } => CommandView::FetchAsset { url: url@ },
            Command::Stop => CommandView::Stop,
        }
    }
}

/// The ingestion of one catalog entry in progress, under the
/// configuration of its run.
#[derive(Debug)]
pub struct EntryJob<'a> {
    config: &'a IngestConfig,
    id: String,
    phase: Phase,
    shader: Option<Shader>,
    pass: usize,
    input: usize,
    source: String,
    status: BuildStatus,
}

/// The state of a job as contracts speak of it.
pub struct EntryJobView {
    /// The catalog entry that is being ingested.
    pub id: Seq<char>,
    /// What the job is waiting for.
    pub phase: Phase,
    /// The definition, once it is known.
    pub shader: Option<Shader>,
    /// The pass that is being dealt with.
    pub pass: int,
    /// The input of that pass that is being dealt with.
    pub input: int,
    /// The assembled source of that pass.
    pub source: Seq<char>,
    /// What became of the entry's pipeline.
    pub status: BuildStatus,
}

/// Whether `input` is backed by an asset that has to be in the cache.
pub open spec fn input_has_asset(input: RenderPassInput) -> bool {
    match ContentClass::named(input.ctype@) {
        Some(class) => class.has_asset(),
        None => false,
    }
}

/// The first input at or after `from` that is backed by an asset, or the
/// number of inputs if there is none.
pub open spec fn next_asset(inputs: Seq<RenderPassInput>, from: int) -> int
    decreases inputs.len() - from,
{
    if from < 0 || from >= inputs.len() {
        inputs.len() as int
    } else if input_has_asset(inputs[from]) {
        from
    } else {
        next_asset(inputs, from + 1)
    }
}

/// The job gives up.
pub open spec fn abort(job: EntryJobView, reason: AbortReason) -> (EntryJobView, CommandView) {
    (EntryJobView { phase: Phase::Aborted(reason), ..job }, CommandView::Stop)
}

/// The job turns to pass `p`: its source is assembled and written out, or
/// the job is finished if there is no such pass.
pub open spec fn enter_pass(config: IngestConfig, job: EntryJobView, p: int) -> (
    EntryJobView,
    CommandView,
) {
    let passes = job.shader.unwrap().renderpass@;
    if p >= passes.len() {
        (EntryJobView { phase: Phase::Finished, pass: p, input: 0, ..job }, CommandView::Stop)
    } else {
        match first_unknown(passes[p].inputs@) {
            Some(i) => abort(
                EntryJobView { pass: p, input: 0, ..job },
                AbortReason::UnknownContentClass { pass: p as usize, input: i as usize },
            ),
            None => {
                let source = assembled_source(config.template, passes[p]);
                (
                    EntryJobView { phase: Phase::SourceWrite, pass: p, input: 0, source, ..job },
                    CommandView::Write {
                        path: source_path_of(pass_stem_of(job.id, passes[p].name@)),
                        contents: encode_utf8(source),
                    },
                )
            },
        }
    }
}

/// The job turns to the inputs of the current pass, from input `from` on:
/// the next asset is probed for, or the next pass entered if none is left.
pub open spec fn enter_inputs(config: IngestConfig, job: EntryJobView, from: int) -> (
    EntryJobView,
    CommandView,
) {
    let inputs = job.shader.unwrap().renderpass@[job.pass].inputs@;
    let i = next_asset(inputs, from);
    if i < inputs.len() {
        (
            EntryJobView { phase: Phase::AssetProbe, input: i, ..job },
            CommandView::Probe { path: asset_path_of(inputs[i].src@) },
        )
    } else {
        enter_pass(config, job, job.pass + 1)
    }
}

/// The job has written the source of the current pass and decides whether
/// to build it.
pub open spec fn after_source_write(config: IngestConfig, job: EntryJobView) -> (
    EntryJobView,
    CommandView,
) {
    let shader = job.shader.unwrap();
    if !eligible(shader, job.pass) {
        enter_inputs(config, job, 0)
    } else if denylisted(config.denylist@, shader.info.id@) {
        enter_inputs(config, EntryJobView { status: BuildStatus::Denylisted, ..job }, 0)
    } else if !config.build {
        enter_inputs(config, EntryJobView { status: BuildStatus::NoBackend, ..job }, 0)
    } else {
        (
            EntryJobView { phase: Phase::MemoProbe, ..job },
            CommandView::Probe { path: failure_memo_path_of(job.source, config.format_version) },
        )
    }
}

/// The state of a job that has just been started, and its first command.
pub open spec fn started(id: Seq<char>) -> (EntryJobView, CommandView) {
    (
        EntryJobView {
            id,
            phase: Phase::DefinitionProbe,
            shader: None,
            pass: 0,
            input: 0,
            source: Seq::<char>::empty(),
            status: BuildStatus::NotAttempted,
        },
        CommandView::Probe { path: definition_path_of(id) },
    )
}

/// The transition function of the job: the state after `event`, and the
/// command that is handed out next.
pub open spec fn step_of(config: IngestConfig, job: EntryJobView, event: Event) -> (
    EntryJobView,
    CommandView,
) {
    match job.phase {
        Phase::Finished => (job, CommandView::Stop),
        Phase::Aborted(_) => (job, CommandView::Stop),
        _ => match event {
            Event::Failed => abort(job, AbortReason::Failed),
            Event::Probed(found) => match job.phase {
                Phase::DefinitionProbe => if found {
                    (
                        EntryJobView { phase: Phase::DefinitionLoad, ..job },
                        CommandView::LoadDefinition { path: definition_path_of(job.id) },
                    )
                } else {
                    (
                        EntryJobView { phase: Phase::DefinitionFetch, ..job },
                        CommandView::FetchDefinition { id: job.id },
                    )
                },
                Phase::MemoProbe => if found {
                    enter_inputs(
                        config,
                        EntryJobView { status: BuildStatus::KnownFailure, ..job },
                        0,
                    )
                } else {
                    (
                        EntryJobView { phase: Phase::Build, ..job },
                        CommandView::Build {
                            stem: pass_stem_of(
                                job.id,
                                job.shader.unwrap().renderpass@[job.pass].name@,
                            ),
                            source: job.source,
                        },
                    )
                },
                Phase::AssetProbe => if found {
                    enter_inputs(config, job, job.input + 1)
                } else {
                    (
                        EntryJobView { phase: Phase::AssetFetch, ..job },
                        CommandView::FetchAsset {
                            url: asset_url_of(
                                job.shader.unwrap().renderpass@[job.pass].inputs@[job.input].src@,
                            ),
                        },
                    )
                },
                _ => abort(job, AbortReason::Unexpected),
            },
            Event::Definition(shader) => match job.phase {
                Phase::DefinitionFetch => (
                    EntryJobView { phase: Phase::DefinitionStore, shader: Some(shader), ..job },
                    CommandView::StoreDefinition { path: definition_path_of(job.id) },
                ),
                Phase::DefinitionLoad => enter_pass(
                    config,
                    EntryJobView { shader: Some(shader), ..job },
                    0,
                ),
                _ => abort(job, AbortReason::Unexpected),
            },
            Event::Done => match job.phase {
                Phase::DefinitionStore => enter_pass(config, job, 0),
                Phase::SourceWrite => after_source_write(config, job),
                Phase::MemoWrite => enter_inputs(config, job, 0),
                Phase::AssetWrite => enter_inputs(config, job, job.input + 1),
                _ => abort(job, AbortReason::Unexpected),
            },
            Event::Built(handle) => match job.phase {
                Phase::Build => enter_inputs(
                    config,
                    EntryJobView { status: BuildStatus::Built(handle), ..job },
                    0,
                ),
                _ => abort(job, AbortReason::Unexpected),
            },
            Event::BuildFailed(message) => match job.phase {
                Phase::Build => (
                    EntryJobView { phase: Phase::MemoWrite, status: BuildStatus::Failed, ..job },
                    CommandView::Write {
                        path: failure_memo_path_of(job.source, config.format_version),
                        contents: encode_utf8(message@),
                    },
                ),
                _ => abort(job, AbortReason::Unexpected),
            },
            Event::Asset(bytes) => match job.phase {
                Phase::AssetFetch => (
                    EntryJobView { phase: Phase::AssetWrite, ..job },
                    CommandView::Write {
                        path: asset_path_of(
                            job.shader.unwrap().renderpass@[job.pass].inputs@[job.input].src@,
                        ),
                        contents: bytes@,
                    },
                ),
                _ => abort(job, AbortReason::Unexpected),
            },
        },
    }
}

impl EntryJobView {
    /// The pass that the job is dealing with.
    pub open spec fn current_pass(self) -> RenderPass {
        self.shader.unwrap().renderpass@[self.pass]
    }

    /// Whether the job is past the decision to build the current pass, and
    /// not yet past the build itself.
    pub open spec fn building(self) -> bool {
        self.phase == Phase::MemoProbe || self.phase == Phase::Build || self.phase
            == Phase::MemoWrite
    }

    /// Whether the job is dealing with an asset of the current pass.
    pub open spec fn downloading(self) -> bool {
        self.phase == Phase::AssetProbe || self.phase == Phase::AssetFetch || self.phase
            == Phase::AssetWrite
    }

    /// The invariant of a job that runs under `config`.
    pub open spec fn wf(self, config: IngestConfig) -> bool {
        &&& self.phase == Phase::DefinitionProbe || self.phase == Phase::DefinitionFetch
            || self.phase == Phase::DefinitionLoad ==> self.shader is None
        &&& self.phase == Phase::DefinitionStore || self.phase == Phase::SourceWrite
            || self.building() || self.downloading() || self.phase == Phase::Finished
            ==> self.shader is Some
        &&& self.shader is None ==> self.status == BuildStatus::NotAttempted
        &&& self.phase == Phase::DefinitionStore ==> self.status == BuildStatus::NotAttempted
        &&& self.phase == Phase::SourceWrite || self.building() || self.downloading() ==> {
            &&& 0 <= self.pass < self.shader.unwrap().renderpass@.len()
            &&& inputs_known(self.current_pass().inputs@)
        }
        &&& self.phase == Phase::SourceWrite || self.building() ==> {
            &&& self.source == assembled_source(config.template, self.current_pass())
            &&& self.status == if self.phase == Phase::MemoWrite {
                BuildStatus::Failed
            } else {
                BuildStatus::NotAttempted
            }
        }
        &&& self.building() ==> {
            &&& eligible(self.shader.unwrap(), self.pass)
            &&& !denylisted(config.denylist@, self.shader.unwrap().info.id@)
            &&& config.build
        }
        &&& self.downloading() ==> {
            &&& 0 <= self.input < self.current_pass().inputs@.len()
            &&& input_has_asset(self.current_pass().inputs@[self.input])
        }
        &&& self.status != BuildStatus::NotAttempted ==> {
            &&& self.shader is Some
            &&& eligible(self.shader.unwrap(), 0)
        }
        &&& (self.status is Built || self.status == BuildStatus::Failed || self.status
            == BuildStatus::KnownFailure) ==> {
            &&& !denylisted(config.denylist@, self.shader.unwrap().info.id@)
            &&& config.build
        }
    }
}

/// Where `next_asset` points, there is an input with an asset, and none
/// lies between `from` and it.
pub proof fn lemma_next_asset(inputs: Seq<RenderPassInput>, from: int)
    requires
        0 <= from <= inputs.len(),
    ensures
        from <= next_asset(inputs, from) <= inputs.len(),
        next_asset(inputs, from) < inputs.len() ==> input_has_asset(
            inputs[next_asset(inputs, from)],
        ),
        forall|k: int|
            from <= k < next_asset(inputs, from) ==> !input_has_asset(#[trigger] inputs[k]),
    decreases inputs.len() - from,
{
    if from < inputs.len() && !input_has_asset(inputs[from]) {
        lemma_next_asset(inputs, from + 1);
    }
}

impl<'a> View for EntryJob<'a> {
    type V = EntryJobView;

    closed spec fn view(&self) -> EntryJobView {
        EntryJobView {
            id: self.id@,
            phase: self.phase,
            shader: self.shader,
            pass: self.pass as int,
            input: self.input as int,
            source: self.source@,
            status: self.status,
        }
    }
}

impl<'a> EntryJob<'a> {
    /// The configuration that the job runs under.
    pub closed spec fn config(&self) -> IngestConfig {
        *self.config
    }

    /// The invariant of the job.
    pub open spec fn wf(&self) -> bool {
        self@.wf(self.config())
    }

    /// Starts the ingestion of the catalog entry `id` under `config`. The
    /// first command asks whether its definition is in the cache.
    pub fn start(id: String, config: &'a IngestConfig) -> (r: (EntryJob<'a>, Command))
        ensures
            (r.0@, r.1@) == started(id@),
            r.0.config() == *config,
            r.0.wf(),
    {
        let path = definition_path(id.as_str());
        let job = EntryJob {
            config,
            id,
            phase: Phase::DefinitionProbe,
            shader: None,
            pass: 0,
            input: 0,
            source: String::new(),
            status: BuildStatus::NotAttempted,
        };
        (job, Command::Probe { path })
    }

    /// What the job is waiting for.
    pub fn phase(&self) -> (phase: Phase)
        ensures
            phase == self@.phase,
    {
        self.phase
    }

    /// What became of the entry's pipeline so far.
    pub fn status(&self) -> (status: BuildStatus)
        ensures
            status == self@.status,
    {
        self.status
    }

    /// The catalog entry that is being ingested.
    pub fn id(&self) -> (id: &str)
        ensures
            id@ == self@.id,
    {
        self.id.as_str()
    }

    /// The definition, once it is known.
    pub fn shader(&self) -> (shader: Option<&Shader>)
        ensures
            shader == match self@.shader {
                Some(s) => Some(&s),
                None => None::<&Shader>,
            },
    {
        self.shader.as_ref()
    }

    /// Whether the job has come to an end, one way or the other.
    pub fn is_over(&self) -> (over: bool)
        ensures
            over == (self@.phase == Phase::Finished || self@.phase is Aborted),
    {
        match self.phase {
            Phase::Finished => true,
            Phase::Aborted(_) => true,
            _ => false,
        }
    }

    fn abort(&mut self, reason: AbortReason) -> (command: Command)
        ensures
            final(self).config() == old(self).config(),
            (final(self)@, command@) == abort(old(self)@, reason),
    {
        self.phase = Phase::Aborted(reason);
        Command::Stop
    }

    fn enter_pass(&mut self, config: &IngestConfig, p: usize) -> (command: Command)
        requires
            old(self)@.shader is Some,
        ensures
            final(self).config() == old(self).config(),
            (final(self)@, command@) == enter_pass(*config, old(self)@, p as int),
    {
        self.pass = p;
        self.input = 0;
        let made = match &self.shader {
            Some(shader) => {
                if p >= shader.renderpass.len() {
                    None
                } else {
                    let pass = &shader.renderpass[p];
                    proof {
                        lemma_first_unknown(pass.inputs@);
                    }
                    match assemble(&config.template, pass) {
                        Ok(source) => {
                            let stem = pass_stem(self.id.as_str(), pass.name.as_str());
                            let path = source_path(stem.as_str());
                            Some(Ok((source, path)))
                        },
                        Err(e) => Some(Err(e)),
                    }
                }
            },
            None => None,
        };
        match made {
            None => {
                self.phase = Phase::Finished;
                Command::Stop
            },
            Some(Err(e)) => {
                self.phase = Phase::Aborted(
                    AbortReason::UnknownContentClass { pass: p, input: e.input },
                );
                Command::Stop
            },
            Some(Ok((source, path))) => {
                let contents = source.as_str().as_bytes_vec();
                self.source = source;
                self.phase = Phase::SourceWrite;
                Command::Write { path, contents }
            },
        }
    }

    fn enter_inputs(&mut self, config: &IngestConfig, from: usize) -> (command: Command)
        requires
            old(self)@.shader is Some,
            0 <= old(self)@.pass < old(self)@.shader.unwrap().renderpass@.len(),
            from <= old(self)@.current_pass().inputs@.len(),
        ensures
            final(self).config() == old(self).config(),
            (final(self)@, command@) == enter_inputs(*config, old(self)@, from as int),
    {
        let found = match &self.shader {
            Some(shader) => {
                let inputs = &shader.renderpass[self.pass].inputs;
                let mut i: usize = from;
                let mut found: Option<(usize, String)> = None;
                while i < inputs.len() && found.is_none()
                    invariant
                        from <= i <= inputs.len(),
                        next_asset(inputs@, from as int) == match found {
                            Some(hit) => hit.0 as int,
                            None => next_asset(inputs@, i as int),
                        },
                        found matches Some(hit) ==> hit.0 < inputs.len() && hit.1@
                            == asset_path_of(inputs@[hit.0 as int].src@),
                    decreases inputs.len() - i + (if found is None { 1int } else { 0int }),
                {
                    let wanted = match ContentClass::from_name(inputs[i].ctype.as_str()) {
                        Some(class) => class.needs_asset(),
                        None => false,
                    };
                    if wanted {
                        found = Some((i, asset_path(inputs[i].src.as_str())));
                    } else {
                        i += 1;
                    }
                }
                found
            },
            None => None,
        };
        match found {
            Some(hit) => {
                self.phase = Phase::AssetProbe;
                self.input = hit.0;
                Command::Probe { path: hit.1 }
            },
            None => {
                assert(self.pass < self.shader.unwrap().renderpass.len());
                let next = self.pass + 1;
                self.enter_pass(config, next)
            },
        }
    }
}

/// Entering a pass keeps the invariant.
pub proof fn lemma_enter_pass_wf(config: IngestConfig, job: EntryJobView, p: int)
    requires
        job.shader is Some,
        0 <= p,
        p < job.shader.unwrap().renderpass@.len() ==> job.status == BuildStatus::NotAttempted,
        job.status != BuildStatus::NotAttempted ==> eligible(job.shader.unwrap(), 0),
        (job.status is Built || job.status == BuildStatus::Failed || job.status
            == BuildStatus::KnownFailure) ==> !denylisted(
            config.denylist@,
            job.shader.unwrap().info.id@,
        ) && config.build,
    ensures
        enter_pass(config, job, p).0.wf(config),
{
    let passes = job.shader.unwrap().renderpass@;
    if p < passes.len() {
        lemma_first_unknown(passes[p].inputs@);
    }
}

/// Turning to the inputs of the current pass keeps the invariant.
pub proof fn lemma_enter_inputs_wf(config: IngestConfig, job: EntryJobView, from: int)
    requires
        job.shader is Some,
        0 <= job.pass < job.shader.unwrap().renderpass@.len(),
        0 <= from <= job.current_pass().inputs@.len(),
        inputs_known(job.current_pass().inputs@),
        job.status != BuildStatus::NotAttempted ==> eligible(job.shader.unwrap(), 0),
        (job.status is Built || job.status == BuildStatus::Failed || job.status
            == BuildStatus::KnownFailure) ==> !denylisted(
            config.denylist@,
            job.shader.unwrap().info.id@,
        ) && config.build,
    ensures
        enter_inputs(config, job, from).0.wf(config),
{
    let inputs = job.current_pass().inputs@;
    lemma_next_asset(inputs, from);
    if next_asset(inputs, from) >= inputs.len() {
        lemma_enter_pass_wf(config, job, job.pass + 1);
    }
}

/// Every transition keeps the invariant of the job.
pub proof fn lemma_step_keeps_wf(config: IngestConfig, job: EntryJobView, event: Event)
    requires
        job.wf(config),
    ensures
        step_of(config, job, event).0.wf(config),
{
    match job.phase {
        Phase::Finished => {},
        Phase::Aborted(_) => {},
        _ => match event {
            Event::Failed => {},
            Event::Probed(found) => match job.phase {
                Phase::MemoProbe => if found {
                    lemma_enter_inputs_wf(
                        config,
                        EntryJobView { status: BuildStatus::KnownFailure, ..job },
                        0,
                    );
                },
                Phase::AssetProbe => if found {
                    lemma_enter_inputs_wf(config, job, job.input + 1);
                },
                _ => {},
            },
            Event::Definition(shader) => match job.phase {
                Phase::DefinitionLoad => {
                    lemma_enter_pass_wf(config, EntryJobView { shader: Some(shader), ..job }, 0);
                },
                _ => {},
            },
            Event::Done => match job.phase {
                Phase::DefinitionStore => {
                    lemma_enter_pass_wf(config, job, 0);
                },
                Phase::SourceWrite => {
                    lemma_enter_inputs_wf(config, job, 0);
                    if eligible(job.shader.unwrap(), job.pass) {
                        lemma_enter_inputs_wf(
                            config,
                            EntryJobView { status: BuildStatus::Denylisted, ..job },
                            0,
                        );
                        lemma_enter_inputs_wf(
                            config,
                            EntryJobView { status: BuildStatus::NoBackend, ..job },
                            0,
                        );
                    }
                },
                Phase::MemoWrite => {
                    lemma_enter_inputs_wf(config, job, 0);
                },
                Phase::AssetWrite => {
                    lemma_enter_inputs_wf(config, job, job.input + 1);
                },
                _ => {},
            },
            Event::Built(handle) => match job.phase {
                Phase::Build => {
                    lemma_enter_inputs_wf(
                        config,
                        EntryJobView { status: BuildStatus::Built(handle), ..job },
                        0,
                    );
                },
                _ => {},
            },
            Event::BuildFailed(_) => {},
            Event::Asset(_) => {},
        },
    }
}

impl<'a> EntryJob<'a> {
    fn after_source_write(&mut self, config: &IngestConfig) -> (command: Command)
        requires
            old(self)@.shader is Some,
            0 <= old(self)@.pass < old(self)@.shader.unwrap().renderpass@.len(),
        ensures
            final(self).config() == old(self).config(),
            (final(self)@, command@) == after_source_write(*config, old(self)@),
    {
        let (fit, listed) = match &self.shader {
            Some(shader) => (
                is_eligible(shader, self.pass),
                config.is_denylisted(shader.info.id.as_str()),
            ),
            None => (false, false),
        };
        if !fit {
            self.enter_inputs(config, 0)
        } else if listed {
            self.status = BuildStatus::Denylisted;
            self.enter_inputs(config, 0)
        } else if !config.build {
            self.status = BuildStatus::NoBackend;
            self.enter_inputs(config, 0)
        } else {
            let path = failure_memo_path(self.source.as_str(), config.format_version);
            self.phase = Phase::MemoProbe;
            Command::Probe { path }
        }
    }

    fn current_stem(&self) -> (stem: String)
        requires
            self@.shader is Some,
            0 <= self@.pass < self@.shader.unwrap().renderpass@.len(),
        ensures
            stem@ == pass_stem_of(self@.id, self@.current_pass().name@),
    {
        match &self.shader {
            Some(shader) => pass_stem(self.id.as_str(), shader.renderpass[self.pass].name.as_str()),
            None => String::new(),
        }
    }

    fn current_src(&self) -> (src: &str)
        requires
            self@.shader is Some,
            0 <= self@.pass < self@.shader.unwrap().renderpass@.len(),
            0 <= self@.input < self@.current_pass().inputs@.len(),
        ensures
            src@ == self@.current_pass().inputs@[self@.input].src@,
    {
        match &self.shader {
            Some(shader) => shader.renderpass[self.pass].inputs[self.input].src.as_str(),
            None => "",
        }
    }

    /// Takes the report on the command that was handed out last, and hands
    /// out the next one. A report that does not answer that command, or
    /// that says the command failed, ends the job.
    pub fn step(&mut self, event: Event) -> (command: Command)
        requires
            old(self).wf(),
        ensures
            final(self).config() == old(self).config(),
            (final(self)@, command@) == step_of(old(self).config(), old(self)@, event),
            final(self).wf(),
    {
        let config: &'a IngestConfig = self.config;
        proof {
            lemma_step_keeps_wf(*config, self@, event);
        }
        match self.phase {
            Phase::Finished => {
                return Command::Stop;
            },
            Phase::Aborted(_) => {
                return Command::Stop;
            },
            _ => {},
        }
        match event {
            Event::Failed => self.abort(AbortReason::Failed),
            Event::Probed(found) => match self.phase {
                Phase::DefinitionProbe => {
                    if found {
                        self.phase = Phase::DefinitionLoad;
                        Command::LoadDefinition { path: definition_path(self.id.as_str()) }
                    } else {
                        self.phase = Phase::DefinitionFetch;
                        Command::FetchDefinition { id: self.id.clone() }
                    }
                },
                Phase::MemoProbe => {
                    if found {
                        self.status = BuildStatus::KnownFailure;
                        self.enter_inputs(config, 0)
                    } else {
                        let stem = self.current_stem();
                        self.phase = Phase::Build;
                        Command::Build { stem, source: self.source.clone() }
                    }
                },
                Phase::AssetProbe => {
                    if found {
                        assert(self.input < self@.current_pass().inputs.len());
                        let next = self.input + 1;
                        self.enter_inputs(config, next)
                    } else {
                        let url = asset_url(self.current_src());
                        self.phase = Phase::AssetFetch;
                        Command::FetchAsset { url }
                    }
                },
                _ => self.abort(AbortReason::Unexpected),
            },
            Event::Definition(shader) => match self.phase {
                Phase::DefinitionFetch => {
                    self.shader = Some(shader);
                    self.phase = Phase::DefinitionStore;
                    Command::StoreDefinition { path: definition_path(self.id.as_str()) }
                },
                Phase::DefinitionLoad => {
                    self.shader = Some(shader);
                    self.enter_pass(config, 0)
                },
                _ => self.abort(AbortReason::Unexpected),
            },
            Event::Done => match self.phase {
                Phase::DefinitionStore => self.enter_pass(config, 0),
                Phase::SourceWrite => self.after_source_write(config),
                Phase::MemoWrite => self.enter_inputs(config, 0),
                Phase::AssetWrite => {
                    assert(self.input < self@.current_pass().inputs.len());
                    let next = self.input + 1;
                    self.enter_inputs(config, next)
                },
                _ => self.abort(AbortReason::Unexpected),
            },
            Event::Built(handle) => match self.phase {
                Phase::Build => {
                    self.status = BuildStatus::Built(handle);
                    self.enter_inputs(config, 0)
                },
                _ => self.abort(AbortReason::Unexpected),
            },
            Event::BuildFailed(message) => match self.phase {
                Phase::Build => {
                    let path = failure_memo_path(self.source.as_str(), config.format_version);
                    let contents = message.as_str().as_bytes_vec();
                    self.phase = Phase::MemoWrite;
                    self.status = BuildStatus::Failed;
                    Command::Write { path, contents }
                },
                _ => self.abort(AbortReason::Unexpected),
            },
            Event::Asset(bytes) => match self.phase {
                Phase::AssetFetch => {
                    let path = asset_path(self.current_src());
                    self.phase = Phase::AssetWrite;
                    Command::Write { path, contents: bytes }
                },
                _ => self.abort(AbortReason::Unexpected),
            },
        }
    }
}

/// A shader whose pipeline was built, as the viewer shows it.
#[derive(Debug)]
pub struct BuiltShader {
    /// The catalog's metadata of the shader.
    pub info: crate::types::ShaderInfo,
    /// The handle under which its pipeline is registered.
    pub pipeline_handle: usize,
}

impl<'a> EntryJob<'a> {
    /// The built shader that this job contributes to the result of the run:
    /// one if its pipeline was registered, none otherwise.
    pub fn into_built(self) -> (built: Option<BuiltShader>)
        ensures
            built == match (self@.status, self@.shader) {
                (BuildStatus::Built(handle), Some(shader)) => Some(
                    BuiltShader { info: shader.info, pipeline_handle: handle },
                ),
                _ => None::<BuiltShader>,
            },
    {
        match (self.status, self.shader) {
            (BuildStatus::Built(handle), Some(shader)) => Some(
                BuiltShader { info: shader.info, pipeline_handle: handle },
            ),
            _ => None,
        }
    }
}

} // verus!
