//! Ingesting an entry a second time. A run that came to its end leaves the
//! cache holding everything the entry needs, so that a second run against
//! the same cache reads the definition and finds every asset there, uses
//! the network not once, and comes to the same verdict on the pipeline.

use vstd::prelude::*;
use crate::assemble::{assembled_source, inputs_known, lemma_first_unknown};
use crate::ingest::{
    denylisted, eligible, enter_inputs, enter_pass, input_has_asset, lemma_next_asset,
    lemma_step_keeps_wf, next_asset, started, step_of, BuildStatus, EntryJobView, IngestConfig,
    Phase,
};
use crate::layout::{
    asset_path_of, definition_path_of, failure_memo_path_of, lemma_definition_is_no_source,
    lemma_memo_is_elsewhere, pass_stem_of, source_path_of,
};
use crate::run::{ingest_entry, lemma_step_progress, pending, rank, respond, run, work, World};
use crate::types::Shader;

verus! {

/// What a run concluded about the pipeline of its entry.
pub enum Verdict {
    /// No pass was eligible.
    NotAttempted,
    /// The shader is on the denylist.
    Denylisted,
    /// No backend was present.
    NoBackend,
    /// The build failed, now or on an earlier run.
    Failed,
    /// The pipeline was built.
    Built,
}

/// The verdict that a status amounts to.
pub open spec fn verdict(status: BuildStatus) -> Verdict {
    match status {
        BuildStatus::NotAttempted => Verdict::NotAttempted,
        BuildStatus::Denylisted => Verdict::Denylisted,
        BuildStatus::NoBackend => Verdict::NoBackend,
        BuildStatus::KnownFailure => Verdict::Failed,
        BuildStatus::Failed => Verdict::Failed,
        BuildStatus::Built(_) => Verdict::Built,
    }
}

/// The assembled source of the first pass of `shader`.
pub open spec fn first_source(config: IngestConfig, shader: Shader) -> Seq<char> {
    assembled_source(config.template, shader.renderpass@[0])
}

/// The failure memo of the first pass of `shader`.
pub open spec fn memo_of(config: IngestConfig, shader: Shader) -> Seq<char> {
    failure_memo_path_of(first_source(config, shader), config.format_version)
}

/// The verdict that is due to `shader`, given whether its failure memo is
/// present and whether the backend builds its source.
pub open spec fn verdict_due(
    config: IngestConfig,
    shader: Shader,
    memo_present: bool,
    buildable: bool,
) -> Verdict {
    if !eligible(shader, 0) {
        Verdict::NotAttempted
    } else if denylisted(config.denylist@, shader.info.id@) {
        Verdict::Denylisted
    } else if !config.build {
        Verdict::NoBackend
    } else if memo_present {
        Verdict::Failed
    } else if buildable {
        Verdict::Built
    } else {
        Verdict::Failed
    }
}

/// Whether input `j` of pass `q` of `shader` exists and is backed by an
/// asset.
pub open spec fn has_asset_at(shader: Shader, q: int, j: int) -> bool {
    &&& 0 <= q < shader.renderpass@.len()
    &&& 0 <= j < shader.renderpass@[q].inputs@.len()
    &&& input_has_asset(shader.renderpass@[q].inputs@[j])
}

/// Where the asset of input `j` of pass `q` is cached.
pub open spec fn asset_at(shader: Shader, q: int, j: int) -> Seq<char> {
    asset_path_of(shader.renderpass@[q].inputs@[j].src@)
}

/// Whether the cache holds the definition `shader` of the entry `id`.
pub open spec fn definition_held(world: World, id: Seq<char>, shader: Shader) -> bool {
    &&& world.files.contains(definition_path_of(id))
    &&& world.definitions.dom().contains(definition_path_of(id))
    &&& world.definitions[definition_path_of(id)] == shader
}

/// Whether the cache holds every asset of `shader` that comes before input
/// `i` of pass `p`.
pub open spec fn assets_present(world: World, shader: Shader, p: int, i: int) -> bool {
    forall|q: int, j: int|
        #[trigger] has_asset_at(shader, q, j) && (q < p || (q == p && j < i))
            ==> world.files.contains(asset_at(shader, q, j))
}

/// Whether the cache holds everything that the entry `id` with the
/// definition `shader` needs.
pub open spec fn saturated(world: World, id: Seq<char>, shader: Shader) -> bool {
    &&& definition_held(world, id, shader)
    &&& assets_present(world, shader, shader.renderpass@.len() as int, 0)
}

/// Whether the content class of every input before pass `p` is known.
pub open spec fn known_before(shader: Shader, p: int) -> bool {
    forall|q: int|
        0 <= q < shader.renderpass@.len() && q < p ==> inputs_known(
            #[trigger] shader.renderpass@[q].inputs@,
        )
}

/// Whether no asset of `shader` is cached in the place of the definition
/// of the entry `id`.
pub open spec fn assets_beside_definition(id: Seq<char>, shader: Shader) -> bool {
    forall|q: int, j: int|
        #[trigger] has_asset_at(shader, q, j) ==> asset_at(shader, q, j) != definition_path_of(
            id,
        )
}

/// The input that a job is dealing with, if it is dealing with one.
pub open spec fn position(job: EntryJobView) -> int {
    if job.downloading() {
        job.input
    } else {
        0
    }
}

/// What holds of a first run at every request: the cache holds whatever
/// the job has dealt with, and once the job is finished its verdict is the
/// one due.
pub open spec fn filling(config: IngestConfig, world: World, job: EntryJobView) -> bool {
    &&& job.wf(config)
    &&& job.phase == Phase::DefinitionLoad ==> world.files.contains(definition_path_of(job.id))
    &&& job.shader is Some && job.phase != Phase::DefinitionStore && !(job.phase is Aborted) ==> {
        let shader = job.shader.unwrap();
        &&& definition_held(world, job.id, shader)
        &&& assets_present(world, shader, job.pass, position(job))
        &&& known_before(shader, job.pass)
        &&& job.phase == Phase::Build ==> !world.files.contains(memo_of(config, shader))
        &&& job.phase == Phase::Finished ==> job.pass >= shader.renderpass@.len() && verdict(
            job.status,
        ) == verdict_due(
            config,
            shader,
            world.files.contains(memo_of(config, shader)),
            world.buildable.contains(first_source(config, shader)),
        )
    }
}

/// What holds of a second run at every request: the cache is saturated,
/// the job neither fetches nor gives up, and once it is finished its
/// verdict is the one due in the world `base` that the run started from.
pub open spec fn replaying(
    config: IngestConfig,
    world: World,
    job: EntryJobView,
    shader: Shader,
    base: World,
) -> bool {
    let memo = memo_of(config, shader);
    let memo_same = world.files.contains(memo) == base.files.contains(memo);
    &&& job.wf(config)
    &&& saturated(world, job.id, shader)
    &&& known_before(shader, shader.renderpass@.len() as int)
    &&& world.buildable == base.buildable
    &&& job.shader is Some ==> job.shader == Some(shader)
    &&& match job.phase {
        Phase::DefinitionProbe => memo_same,
        Phase::DefinitionLoad => memo_same,
        Phase::SourceWrite => memo_same,
        Phase::MemoProbe => memo_same,
        Phase::AssetProbe => memo_same,
        Phase::Build => !base.files.contains(memo) && !world.files.contains(memo),
        Phase::MemoWrite => !base.files.contains(memo) && !base.buildable.contains(
            first_source(config, shader),
        ),
        Phase::Finished => job.shader is Some && verdict(job.status) == verdict_due(
            config,
            shader,
            base.files.contains(memo),
            base.buildable.contains(first_source(config, shader)),
        ),
        _ => false,
    }
}

/// Entering pass `p` in a first run.
proof fn lemma_filling_enter_pass(config: IngestConfig, world: World, job: EntryJobView, p: int)
    requires
        job.shader is Some,
        0 <= p,
        p < job.shader.unwrap().renderpass@.len() ==> job.status == BuildStatus::NotAttempted,
        job.status != BuildStatus::NotAttempted ==> eligible(job.shader.unwrap(), 0),
        (job.status is Built || job.status == BuildStatus::Failed || job.status
            == BuildStatus::KnownFailure) ==> !denylisted(
            config.denylist@,
            job.shader.unwrap().info.id@,
        ) && config.build,
        definition_held(world, job.id, job.shader.unwrap()),
        assets_present(world, job.shader.unwrap(), p, 0),
        known_before(job.shader.unwrap(), p),
        p >= job.shader.unwrap().renderpass@.len() ==> verdict(job.status) == verdict_due(
            config,
            job.shader.unwrap(),
            world.files.contains(memo_of(config, job.shader.unwrap())),
            world.buildable.contains(first_source(config, job.shader.unwrap())),
        ),
    ensures
        ({
            let next = enter_pass(config, job, p).0;
            next.phase is Aborted || filling(config, world, next)
        }),
{
    let passes = job.shader.unwrap().renderpass@;
    if p < passes.len() {
        lemma_first_unknown(passes[p].inputs@);
    }
}

/// Turning to the inputs from `from` on in a first run.
proof fn lemma_filling_enter_inputs(
    config: IngestConfig,
    world: World,
    job: EntryJobView,
    from: int,
)
    requires
        job.shader is Some,
        0 <= job.pass < job.shader.unwrap().renderpass@.len(),
        0 <= from <= job.current_pass().inputs@.len(),
        inputs_known(job.current_pass().inputs@),
        job.status != BuildStatus::NotAttempted ==> eligible(job.shader.unwrap(), 0),
        (job.status is Built || job.status == BuildStatus::Failed || job.status
            == BuildStatus::KnownFailure) ==> !denylisted(
            config.denylist@,
            job.shader.unwrap().info.id@,
        ) && config.build,
        definition_held(world, job.id, job.shader.unwrap()),
        assets_present(world, job.shader.unwrap(), job.pass, from),
        known_before(job.shader.unwrap(), job.pass),
        job.pass + 1 >= job.shader.unwrap().renderpass@.len() ==> verdict(job.status)
            == verdict_due(
            config,
            job.shader.unwrap(),
            world.files.contains(memo_of(config, job.shader.unwrap())),
            world.buildable.contains(first_source(config, job.shader.unwrap())),
        ),
    ensures
        ({
            let next = enter_inputs(config, job, from).0;
            next.phase is Aborted || filling(config, world, next)
        }),
{
    let shader = job.shader.unwrap();
    let inputs = job.current_pass().inputs@;
    lemma_next_asset(inputs, from);
    let i = next_asset(inputs, from);
    assert forall|q: int, j: int|
        #[trigger] has_asset_at(shader, q, j) && (q < job.pass || (q == job.pass && j
            < i)) implies world.files.contains(asset_at(shader, q, j)) by {
        if q == job.pass && j >= from {
            assert(!input_has_asset(inputs[j]));
        }
    }
    if i >= inputs.len() {
        assert(assets_present(world, shader, job.pass + 1, 0));
        assert(known_before(shader, job.pass + 1));
        lemma_filling_enter_pass(config, world, job, job.pass + 1);
    } else {
        crate::ingest::lemma_enter_inputs_wf(config, job, from);
    }
}

/// A cache that gains a file keeps the assets it held.
pub proof fn lemma_assets_stay(world: World, grown: World, shader: Shader, p: int, i: int)
    requires
        assets_present(world, shader, p, i),
        world.files.subset_of(grown.files),
    ensures
        assets_present(grown, shader, p, i),
{
    assert forall|q: int, j: int|
        #[trigger] has_asset_at(shader, q, j) && (q < p || (q == p && j
            < i)) implies grown.files.contains(asset_at(shader, q, j)) by {
        assert(world.files.contains(asset_at(shader, q, j)));
    }
}

/// One request of a first run: unless the job gives up, what holds of a
/// first run holds after the request as it held before.
pub proof fn lemma_filling_step(config: IngestConfig, world: World, job: EntryJobView)
    requires
        filling(config, world, job),
        job.phase != Phase::Finished,
        !(job.phase is Aborted),
        ({
            let event = respond(world, job, pending(config, job)).1;
            let next = step_of(config, job, event).0;
            next.shader is Some ==> assets_beside_definition(job.id, next.shader.unwrap())
        }),
    ensures
        ({
            let (answered, event, calls) = respond(world, job, pending(config, job));
            let next = step_of(config, job, event).0;
            &&& next.phase is Aborted || filling(config, answered, next)
            &&& next.id == job.id
            &&& job.shader is Some ==> next.shader == job.shader
        }),
{
    let (answered, event, calls) = respond(world, job, pending(config, job));
    let next = step_of(config, job, event).0;
    lemma_step_keeps_wf(config, job, event);
    match job.phase {
        Phase::DefinitionProbe => {},
        Phase::DefinitionFetch => {},
        Phase::DefinitionLoad => {
            if world.definitions.dom().contains(definition_path_of(job.id)) {
                let shader = world.definitions[definition_path_of(job.id)];
                let loaded = EntryJobView { shader: Some(shader), ..job };
                lemma_filling_enter_pass(config, world, loaded, 0);
            }
        },
        Phase::DefinitionStore => {
            lemma_filling_enter_pass(config, answered, job, 0);
        },
        Phase::SourceWrite => {
            let shader = job.shader.unwrap();
            let path = source_path_of(pass_stem_of(job.id, job.current_pass().name@));
            lemma_definition_is_no_source(job.id, pass_stem_of(job.id, job.current_pass().name@));
            lemma_memo_is_elsewhere(
                first_source(config, shader),
                config.format_version,
                job.id,
                job.current_pass().name@,
            );
            lemma_assets_stay(world, answered, shader, job.pass, 0);
            if !eligible(shader, job.pass) {
                lemma_filling_enter_inputs(config, answered, job, 0);
            } else if denylisted(config.denylist@, shader.info.id@) {
                lemma_filling_enter_inputs(
                    config,
                    answered,
                    EntryJobView { status: BuildStatus::Denylisted, ..job },
                    0,
                );
            } else if !config.build {
                lemma_filling_enter_inputs(
                    config,
                    answered,
                    EntryJobView { status: BuildStatus::NoBackend, ..job },
                    0,
                );
            }
        },
        Phase::MemoProbe => {
            let shader = job.shader.unwrap();
            if world.files.contains(memo_of(config, shader)) {
                lemma_filling_enter_inputs(
                    config,
                    world,
                    EntryJobView { status: BuildStatus::KnownFailure, ..job },
                    0,
                );
            }
        },
        Phase::Build => {
            let shader = job.shader.unwrap();
            if world.buildable.contains(job.source) {
                lemma_assets_stay(world, answered, shader, job.pass, 0);
                lemma_filling_enter_inputs(
                    config,
                    answered,
                    EntryJobView {
                        status: BuildStatus::Built(world.handles[world.registered]),
                        ..job
                    },
                    0,
                );
            }
        },
        Phase::MemoWrite => {
            let shader = job.shader.unwrap();
            lemma_memo_is_elsewhere(
                first_source(config, shader),
                config.format_version,
                job.id,
                job.current_pass().name@,
            );
            lemma_assets_stay(world, answered, shader, job.pass, 0);
            lemma_filling_enter_inputs(config, answered, job, 0);
        },
        Phase::AssetProbe => {
            let shader = job.shader.unwrap();
            assert(has_asset_at(shader, job.pass, job.input));
            if world.files.contains(asset_at(shader, job.pass, job.input)) {
                assert forall|q: int, j: int|
                    #[trigger] has_asset_at(shader, q, j) && (q < job.pass || (q == job.pass && j
                        < job.input + 1)) implies world.files.contains(asset_at(shader, q, j)) by {
                }
                lemma_filling_enter_inputs(config, world, job, job.input + 1);
            }
        },
        Phase::AssetFetch => {},
        Phase::AssetWrite => {
            let shader = job.shader.unwrap();
            assert(has_asset_at(shader, job.pass, job.input));
            assert(asset_at(shader, job.pass, job.input) != definition_path_of(job.id));
            lemma_assets_stay(world, answered, shader, job.pass, job.input);
            assert forall|q: int, j: int|
                #[trigger] has_asset_at(shader, q, j) && (q < job.pass || (q == job.pass && j
                    < job.input + 1)) implies answered.files.contains(asset_at(shader, q, j)) by {
            }
            lemma_filling_enter_inputs(config, answered, job, job.input + 1);
        },
        Phase::Finished => {},
        Phase::Aborted(_) => {},
    }
}

/// A run comes to an end, and the job keeps its entry and, once it has
/// one, its definition.
pub proof fn lemma_run_ends(config: IngestConfig, world: World, job: EntryJobView, fetches: nat)
    requires
        job.wf(config),
    ensures
        ({
            let end = run(config, world, job, fetches);
            &&& end.job.wf(config)
            &&& end.job.phase == Phase::Finished || end.job.phase is Aborted
            &&& end.job.id == job.id
            &&& job.shader is Some ==> end.job.shader == job.shader
        }),
    decreases rank(job), work(job),
{
    if job.phase != Phase::Finished && !(job.phase is Aborted) {
        let (answered, event, calls) = respond(world, job, pending(config, job));
        let next = step_of(config, job, event).0;
        lemma_step_progress(config, job, event);
        lemma_step_keeps_wf(config, job, event);
        lemma_run_ends(config, answered, next, fetches + calls);
    }
}

/// A first run that is finished has filled the cache: what holds of a
/// first run at every request holds at its end.
pub proof fn lemma_finished_run_has_filled(
    config: IngestConfig,
    world: World,
    job: EntryJobView,
    fetches: nat,
)
    requires
        filling(config, world, job),
        run(config, world, job, fetches).job.phase == Phase::Finished,
        assets_beside_definition(job.id, run(config, world, job, fetches).job.shader.unwrap()),
    ensures
        ({
            let end = run(config, world, job, fetches);
            filling(config, end.world, end.job)
        }),
    decreases rank(job), work(job),
{
    if job.phase != Phase::Finished && !(job.phase is Aborted) {
        let (answered, event, calls) = respond(world, job, pending(config, job));
        let next = step_of(config, job, event).0;
        lemma_step_progress(config, job, event);
        lemma_step_keeps_wf(config, job, event);
        lemma_run_ends(config, answered, next, fetches + calls);
        lemma_filling_step(config, world, job);
        lemma_finished_run_has_filled(config, answered, next, fetches + calls);
    }
}

/// Entering pass `p` in a second run.
proof fn lemma_replaying_enter_pass(
    config: IngestConfig,
    world: World,
    job: EntryJobView,
    p: int,
    shader: Shader,
    base: World,
)
    requires
        job.shader == Some(shader),
        0 <= p,
        p < shader.renderpass@.len() ==> job.status == BuildStatus::NotAttempted,
        job.status != BuildStatus::NotAttempted ==> eligible(shader, 0),
        (job.status is Built || job.status == BuildStatus::Failed || job.status
            == BuildStatus::KnownFailure) ==> !denylisted(config.denylist@, shader.info.id@)
            && config.build,
        saturated(world, job.id, shader),
        known_before(shader, shader.renderpass@.len() as int),
        world.buildable == base.buildable,
        world.files.contains(memo_of(config, shader)) == base.files.contains(
            memo_of(config, shader),
        ),
        p >= shader.renderpass@.len() ==> verdict(job.status) == verdict_due(
            config,
            shader,
            base.files.contains(memo_of(config, shader)),
            base.buildable.contains(first_source(config, shader)),
        ),
    ensures
        replaying(config, world, enter_pass(config, job, p).0, shader, base),
{
    let passes = shader.renderpass@;
    if p < passes.len() {
        assert(inputs_known(passes[p].inputs@));
        lemma_first_unknown(passes[p].inputs@);
    }
    crate::ingest::lemma_enter_pass_wf(config, job, p);
}

/// Turning to the inputs from `from` on in a second run.
proof fn lemma_replaying_enter_inputs(
    config: IngestConfig,
    world: World,
    job: EntryJobView,
    from: int,
    shader: Shader,
    base: World,
)
    requires
        job.shader == Some(shader),
        0 <= job.pass < shader.renderpass@.len(),
        0 <= from <= job.current_pass().inputs@.len(),
        job.status != BuildStatus::NotAttempted ==> eligible(shader, 0),
        (job.status is Built || job.status == BuildStatus::Failed || job.status
            == BuildStatus::KnownFailure) ==> !denylisted(config.denylist@, shader.info.id@)
            && config.build,
        saturated(world, job.id, shader),
        known_before(shader, shader.renderpass@.len() as int),
        world.buildable == base.buildable,
        job.pass + 1 < shader.renderpass@.len() || next_asset(job.current_pass().inputs@, from)
            < job.current_pass().inputs@.len() ==> world.files.contains(memo_of(config, shader))
            == base.files.contains(memo_of(config, shader)),
        job.pass + 1 >= shader.renderpass@.len() ==> verdict(job.status) == verdict_due(
            config,
            shader,
            base.files.contains(memo_of(config, shader)),
            base.buildable.contains(first_source(config, shader)),
        ),
    ensures
        replaying(config, world, enter_inputs(config, job, from).0, shader, base),
{
    let inputs = job.current_pass().inputs@;
    assert(inputs_known(shader.renderpass@[job.pass].inputs@));
    lemma_next_asset(inputs, from);
    crate::ingest::lemma_enter_inputs_wf(config, job, from);
    if next_asset(inputs, from) >= inputs.len() {
        if job.pass + 1 < shader.renderpass@.len() {
            lemma_replaying_enter_pass(config, world, job, job.pass + 1, shader, base);
        }
    }
}

/// One request of a second run: the job neither fetches nor gives up, and
/// what holds of a second run holds after the request as it held before.
pub proof fn lemma_replaying_step(
    config: IngestConfig,
    world: World,
    job: EntryJobView,
    shader: Shader,
    base: World,
)
    requires
        replaying(config, world, job, shader, base),
        job.phase != Phase::Finished,
    ensures
        ({
            let (answered, event, calls) = respond(world, job, pending(config, job));
            let next = step_of(config, job, event).0;
            &&& replaying(config, answered, next, shader, base)
            &&& calls == 0
        }),
{
    let (answered, event, calls) = respond(world, job, pending(config, job));
    let next = step_of(config, job, event).0;
    lemma_step_keeps_wf(config, job, event);
    let memo = memo_of(config, shader);
    match job.phase {
        Phase::DefinitionProbe => {},
        Phase::DefinitionLoad => {
            lemma_replaying_enter_pass(
                config,
                world,
                EntryJobView { shader: Some(shader), ..job },
                0,
                shader,
                base,
            );
        },
        Phase::SourceWrite => {
            lemma_definition_is_no_source(job.id, pass_stem_of(job.id, job.current_pass().name@));
            lemma_memo_is_elsewhere(
                first_source(config, shader),
                config.format_version,
                job.id,
                job.current_pass().name@,
            );
            lemma_assets_stay(world, answered, shader, shader.renderpass@.len() as int, 0);
            assert(saturated(answered, job.id, shader));
            if !eligible(shader, job.pass) {
                lemma_replaying_enter_inputs(config, answered, job, 0, shader, base);
            } else if denylisted(config.denylist@, shader.info.id@) {
                lemma_replaying_enter_inputs(
                    config,
                    answered,
                    EntryJobView { status: BuildStatus::Denylisted, ..job },
                    0,
                    shader,
                    base,
                );
            } else if !config.build {
                lemma_replaying_enter_inputs(
                    config,
                    answered,
                    EntryJobView { status: BuildStatus::NoBackend, ..job },
                    0,
                    shader,
                    base,
                );
            }
        },
        Phase::MemoProbe => {
            if world.files.contains(memo) {
                lemma_replaying_enter_inputs(
                    config,
                    world,
                    EntryJobView { status: BuildStatus::KnownFailure, ..job },
                    0,
                    shader,
                    base,
                );
            }
        },
        Phase::Build => {
            if world.buildable.contains(job.source) {
                lemma_assets_stay(world, answered, shader, shader.renderpass@.len() as int, 0);
                lemma_replaying_enter_inputs(
                    config,
                    answered,
                    EntryJobView {
                        status: BuildStatus::Built(world.handles[world.registered]),
                        ..job
                    },
                    0,
                    shader,
                    base,
                );
            }
        },
        Phase::MemoWrite => {
            lemma_memo_is_elsewhere(
                first_source(config, shader),
                config.format_version,
                job.id,
                job.current_pass().name@,
            );
            lemma_assets_stay(world, answered, shader, shader.renderpass@.len() as int, 0);
            lemma_replaying_enter_inputs(config, answered, job, 0, shader, base);
        },
        Phase::AssetProbe => {
            assert(has_asset_at(shader, job.pass, job.input));
            assert(world.files.contains(asset_at(shader, job.pass, job.input)));
            lemma_replaying_enter_inputs(config, world, job, job.input + 1, shader, base);
        },
        _ => {},
    }
}

/// A second run against a saturated cache is finished without a single
/// use of the network, and its verdict is the one due.
pub proof fn lemma_replay_is_idle(
    config: IngestConfig,
    world: World,
    job: EntryJobView,
    fetches: nat,
    shader: Shader,
    base: World,
)
    requires
        replaying(config, world, job, shader, base),
    ensures
        ({
            let end = run(config, world, job, fetches);
            &&& replaying(config, end.world, end.job, shader, base)
            &&& end.job.phase == Phase::Finished
            &&& end.fetches == fetches
        }),
    decreases rank(job), work(job),
{
    if job.phase != Phase::Finished {
        let (answered, event, calls) = respond(world, job, pending(config, job));
        let next = step_of(config, job, event).0;
        lemma_step_progress(config, job, event);
        lemma_replaying_step(config, world, job, shader, base);
        lemma_replay_is_idle(config, answered, next, fetches + calls, shader, base);
    }
}

/// Ingesting an entry twice against an unchanged cache: if the first run
/// is finished, the second run is finished too, works on the same
/// definition, comes to the same verdict on the pipeline, and does not use
/// the network. This is stated for entries none of whose assets is cached
/// in the place of the definition itself.
pub proof fn lemma_second_run_is_idle(config: IngestConfig, world: World, id: Seq<char>)
    requires
        ingest_entry(config, world, id).job.phase == Phase::Finished,
        assets_beside_definition(id, ingest_entry(config, world, id).job.shader.unwrap()),
    ensures
        ({
            let first = ingest_entry(config, world, id);
            let second = ingest_entry(config, first.world, id);
            &&& second.fetches == 0
            &&& second.job.phase == Phase::Finished
            &&& second.job.shader == first.job.shader
            &&& verdict(second.job.status) == verdict(first.job.status)
            &&& (second.job.status is Built) == (first.job.status is Built)
        }),
{
    let first = ingest_entry(config, world, id);
    let start = started(id).0;
    lemma_run_ends(config, world, start, 0);
    lemma_finished_run_has_filled(config, world, start, 0);
    let shader = first.job.shader.unwrap();
    assert(saturated(first.world, id, shader));
    assert(replaying(config, first.world, start, shader, first.world));
    lemma_replay_is_idle(config, first.world, start, 0, shader, first.world);
}

} // verus!
