//! A model of a whole ingestion against a cache, a catalog and a backend:
//! the job's commands are carried out one after the other until the job
//! stops. The model states what the caller's loop is expected to do, and
//! lets the outcome of complete runs be reasoned about.

use vstd::prelude::*;
use crate::ingest::{
    enter_inputs, enter_pass, lemma_next_asset, next_asset, started, step_of, BuildStatus,
    CommandView, EntryJobView, Event, IngestConfig, Phase,
};
use crate::layout::{
    asset_path_of, asset_url_of, definition_path_of, failure_memo_path_of, pass_stem_of,
    source_path_of,
};
use crate::types::{RenderPass, Shader};

verus! {

/// Everything outside the job that its commands reach.
pub struct World {
    /// The paths that exist in the cache.
    pub files: Set<Seq<char>>,
    /// The definitions that the cache holds, by path.
    pub definitions: Map<Seq<char>, Shader>,
    /// The definitions that the catalog delivers, by identifier.
    pub catalog: Map<Seq<char>, Shader>,
    /// The assets that the catalog's server delivers, by address.
    pub assets: Map<Seq<char>, Vec<u8>>,
    /// The sources that the backend builds a pipeline from.
    pub buildable: Set<Seq<char>>,
    /// What the backend says of a source that it does not build.
    pub complaints: Map<Seq<char>, String>,
    /// How many pipelines the backend has registered.
    pub registered: nat,
    /// The handles that the backend issues, in the order of registration.
    pub handles: Map<nat, usize>,
}

/// What a command asks of the world; what is written does not matter here,
/// only where.
pub enum Request {
    Probe { path: Seq<char> },
    FetchDefinition { id: Seq<char> },
    StoreDefinition { path: Seq<char> },
    LoadDefinition { path: Seq<char> },
    Write { path: Seq<char> },
    Build { source: Seq<char> },
    FetchAsset { url: Seq<char> },
    Stop,
}

/// The request that a command makes.
pub open spec fn request_of(command: CommandView) -> Request {
    match command {
        CommandView::Probe { path } => Request::Probe { path },
        CommandView::FetchDefinition { id } => Request::FetchDefinition { id },
        CommandView::StoreDefinition { path } => Request::StoreDefinition { path },
        CommandView::LoadDefinition { path } => Request::LoadDefinition { path },
        CommandView::Write { path, contents } => Request::Write { path },
        CommandView::Build { stem, source } => Request::Build { source },
        CommandView::FetchAsset { url } => Request::FetchAsset { url },
        CommandView::Stop => Request::Stop,
    }
}

/// The request that a job is waiting on.
pub open spec fn pending(config: IngestConfig, job: EntryJobView) -> Request {
    match job.phase {
        Phase::DefinitionProbe => Request::Probe { path: definition_path_of(job.id) },
        Phase::DefinitionFetch => Request::FetchDefinition { id: job.id },
        Phase::DefinitionStore => Request::StoreDefinition { path: definition_path_of(job.id) },
        Phase::DefinitionLoad => Request::LoadDefinition { path: definition_path_of(job.id) },
        Phase::SourceWrite => Request::Write {
            path: source_path_of(pass_stem_of(job.id, job.current_pass().name@)),
        },
        Phase::MemoProbe => Request::Probe {
            path: failure_memo_path_of(job.source, config.format_version),
        },
        Phase::Build => Request::Build { source: job.source },
        Phase::MemoWrite => Request::Write {
            path: failure_memo_path_of(job.source, config.format_version),
        },
        Phase::AssetProbe => Request::Probe {
            path: asset_path_of(job.current_pass().inputs@[job.input].src@),
        },
        Phase::AssetFetch => Request::FetchAsset {
            url: asset_url_of(job.current_pass().inputs@[job.input].src@),
        },
        Phase::AssetWrite => Request::Write {
            path: asset_path_of(job.current_pass().inputs@[job.input].src@),
        },
        Phase::Finished => Request::Stop,
        Phase::Aborted(_) => Request::Stop,
    }
}

/// The command that a job hands out is the request it then waits on.
pub proof fn lemma_command_is_pending(config: IngestConfig, job: EntryJobView, event: Event)
    requires
        job.wf(config),
    ensures
        ({
            let (next, command) = step_of(config, job, event);
            request_of(command) == pending(config, next)
        }),
        request_of(started(job.id).1) == pending(config, started(job.id).0),
{
    let (next, command) = step_of(config, job, event);
    if job.shader is Some && 0 <= job.pass < job.shader.unwrap().renderpass@.len() {
        let inputs = job.current_pass().inputs@;
        lemma_next_asset(inputs, 0);
        if 0 <= job.input < inputs.len() {
            lemma_next_asset(inputs, job.input + 1);
        }
    }
}

/// How the world answers a request of `job`: the event that is reported,
/// the world afterwards, and how many times the network was used.
pub open spec fn respond(world: World, job: EntryJobView, request: Request) -> (World, Event, nat) {
    match request {
        Request::Probe { path } => (world, Event::Probed(world.files.contains(path)), 0),
        Request::FetchDefinition { id } => if world.catalog.dom().contains(id) {
            (world, Event::Definition(world.catalog[id]), 1)
        } else {
            (world, Event::Failed, 1)
        },
        Request::StoreDefinition { path } => (
            World {
                files: world.files.insert(path),
                definitions: world.definitions.insert(path, job.shader.unwrap()),
                ..world
            },
            Event::Done,
            0,
        ),
        Request::LoadDefinition { path } => if world.definitions.dom().contains(path) {
            (world, Event::Definition(world.definitions[path]), 0)
        } else {
            (world, Event::Failed, 0)
        },
        Request::Write { path } => (
            World {
                files: world.files.insert(path),
                definitions: world.definitions.remove(path),
                ..world
            },
            Event::Done,
            0,
        ),
        Request::Build { source } => if world.buildable.contains(source) {
            (
                World { registered: world.registered + 1, ..world },
                Event::Built(world.handles[world.registered]),
                0,
            )
        } else {
            (world, Event::BuildFailed(world.complaints[source]), 0)
        },
        Request::FetchAsset { url } => if world.assets.dom().contains(url) {
            (world, Event::Asset(world.assets[url]), 1)
        } else {
            (world, Event::Failed, 1)
        },
        Request::Stop => (world, Event::Failed, 0),
    }
}

/// What a pass may still cost: writing its source, deciding on and
/// carrying out its build, and three requests for each of its inputs.
pub open spec fn pass_budget(pass: RenderPass) -> nat {
    5 + 3 * pass.inputs@.len()
}

/// What the passes after pass `p` may still cost.
pub open spec fn later_budget(passes: Seq<RenderPass>, p: int) -> nat
    decreases passes.len() - p,
{
    if p < 0 || p + 1 >= passes.len() {
        0
    } else {
        pass_budget(passes[p + 1]) + later_budget(passes, p + 1)
    }
}

/// How far a job is from having its definition: jobs that wait for the
/// definition rank above those that have it, and those above jobs that are
/// over.
pub open spec fn rank(job: EntryJobView) -> nat {
    match job.phase {
        Phase::DefinitionProbe => 4,
        Phase::DefinitionFetch => 3,
        Phase::DefinitionLoad => 3,
        Phase::DefinitionStore => 2,
        Phase::Finished => 0,
        Phase::Aborted(_) => 0,
        _ => 1,
    }
}

/// An upper bound on the requests that a job that has its definition may
/// still make.
pub open spec fn work(job: EntryJobView) -> nat {
    if rank(job) != 1 || job.shader is None || job.pass < 0 || job.pass
        >= job.shader.unwrap().renderpass@.len() {
        0
    } else {
        let inputs = job.current_pass().inputs@.len() as int;
        let within = match job.phase {
            Phase::SourceWrite => 4 + 3 * inputs,
            Phase::MemoProbe => 3 + 3 * inputs,
            Phase::Build => 2 + 3 * inputs,
            Phase::MemoWrite => 1 + 3 * inputs,
            Phase::AssetProbe => 3 * (inputs - job.input),
            Phase::AssetFetch => 3 * (inputs - job.input) - 1,
            Phase::AssetWrite => 3 * (inputs - job.input) - 2,
            _ => 0,
        };
        (later_budget(job.shader.unwrap().renderpass@, job.pass) + within) as nat
    }
}

/// Whether `a` is closer to its end than `b`.
pub open spec fn precedes(a: EntryJobView, b: EntryJobView) -> bool {
    rank(a) < rank(b) || (rank(a) == rank(b) && work(a) < work(b))
}

/// The end of a run.
pub struct Run {
    /// The world as the run left it.
    pub world: World,
    /// The job as the run left it.
    pub job: EntryJobView,
    /// How many times the network was used.
    pub fetches: nat,
}

/// Runs `job` against `world` until it stops: each request is answered by
/// the world, and the answer handed to the job.
pub open spec fn run(config: IngestConfig, world: World, job: EntryJobView, fetches: nat) -> Run
    decreases rank(job), work(job),
{
    if job.phase == Phase::Finished || job.phase is Aborted {
        Run { world, job, fetches }
    } else {
        let (answered, event, calls) = respond(world, job, pending(config, job));
        let next = step_of(config, job, event).0;
        if precedes(next, job) {
            run(config, answered, next, fetches + calls)
        } else {
            Run { world, job, fetches }
        }
    }
}

/// The ingestion of the entry `id` against `world`, from its start.
pub open spec fn ingest_entry(config: IngestConfig, world: World, id: Seq<char>) -> Run {
    run(config, world, started(id).0, 0)
}

/// What entering pass `p` leaves to do.
proof fn lemma_enter_pass_work(config: IngestConfig, job: EntryJobView, p: int)
    requires
        job.shader is Some,
        0 <= p,
    ensures
        ({
            let next = enter_pass(config, job, p).0;
            let passes = job.shader.unwrap().renderpass@;
            &&& rank(next) <= 1
            &&& rank(next) == 1 ==> p < passes.len() && work(next) == later_budget(passes, p) + 4
                + 3 * passes[p].inputs@.len()
        }),
{
}

/// What turning to the inputs from `from` on leaves to do.
proof fn lemma_enter_inputs_work(config: IngestConfig, job: EntryJobView, from: int)
    requires
        job.shader is Some,
        0 <= job.pass < job.shader.unwrap().renderpass@.len(),
        0 <= from <= job.current_pass().inputs@.len(),
    ensures
        ({
            let next = enter_inputs(config, job, from).0;
            let passes = job.shader.unwrap().renderpass@;
            &&& rank(next) <= 1
            &&& work(next) <= later_budget(passes, job.pass) + 3 * (passes[job.pass].inputs@.len()
                - from)
        }),
{
    let passes = job.shader.unwrap().renderpass@;
    let inputs = job.current_pass().inputs@;
    lemma_next_asset(inputs, from);
    if next_asset(inputs, from) >= inputs.len() {
        lemma_enter_pass_work(config, job, job.pass + 1);
    }
}

/// Every transition brings a job closer to its end: a job that is carried
/// on with, as `run` does, stops after finitely many requests.
pub proof fn lemma_step_progress(config: IngestConfig, job: EntryJobView, event: Event)
    requires
        job.wf(config),
        job.phase != Phase::Finished,
        !(job.phase is Aborted),
    ensures
        precedes(step_of(config, job, event).0, job),
{
    match event {
        Event::Failed => {},
        Event::Probed(found) => match job.phase {
            Phase::MemoProbe => if found {
                lemma_enter_inputs_work(
                    config,
                    EntryJobView { status: BuildStatus::KnownFailure, ..job },
                    0,
                );
            },
            Phase::AssetProbe => if found {
                lemma_enter_inputs_work(config, job, job.input + 1);
            },
            _ => {},
        },
        Event::Definition(shader) => match job.phase {
            Phase::DefinitionLoad => {
                lemma_enter_pass_work(config, EntryJobView { shader: Some(shader), ..job }, 0);
            },
            _ => {},
        },
        Event::Done => match job.phase {
            Phase::DefinitionStore => {
                lemma_enter_pass_work(config, job, 0);
            },
            Phase::SourceWrite => {
                lemma_enter_inputs_work(config, job, 0);
                lemma_enter_inputs_work(
                    config,
                    EntryJobView { status: BuildStatus::Denylisted, ..job },
                    0,
                );
                lemma_enter_inputs_work(
                    config,
                    EntryJobView { status: BuildStatus::NoBackend, ..job },
                    0,
                );
            },
            Phase::MemoWrite => {
                lemma_enter_inputs_work(config, job, 0);
            },
            Phase::AssetWrite => {
                lemma_enter_inputs_work(config, job, job.input + 1);
            },
            _ => {},
        },
        Event::Built(handle) => match job.phase {
            Phase::Build => {
                lemma_enter_inputs_work(
                    config,
                    EntryJobView { status: BuildStatus::Built(handle), ..job },
                    0,
                );
            },
            _ => {},
        },
        Event::BuildFailed(_) => {},
        Event::Asset(_) => {},
    }
}

} // verus!
