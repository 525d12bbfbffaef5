//! Ingesting a list of entries, one after the other, and ingesting it
//! again. What an entry leaves in the cache is left alone by the entries
//! that follow, so that a second pass over the list finds everything in
//! place: it uses the network not once and comes to the same verdicts.

use vstd::prelude::*;
use crate::ingest::{
    eligible, lemma_step_keeps_wf, started, step_of, EntryJobView, IngestConfig, Phase,
};
use crate::layout::{
    definition_path_of, lemma_definition_is_no_source, lemma_memo_is_elsewhere, pass_stem_of,
};
use crate::rerun::{
    asset_at, assets_beside_definition, first_source, has_asset_at, lemma_finished_run_has_filled,
    lemma_replay_is_idle, lemma_run_ends, memo_of, replaying, saturated, verdict, verdict_due,
};
use crate::run::{ingest_entry, lemma_step_progress, pending, rank, respond, run, work, Run, World};
use crate::types::Shader;

verus! {

/// The world in which entry `k` of `ids` is ingested, when the entries are
/// ingested one after the other from `world`.
pub open spec fn world_before(
    config: IngestConfig,
    world: World,
    ids: Seq<Seq<char>>,
    k: nat,
) -> World
    decreases k,
{
    if k == 0 {
        world
    } else {
        ingest_entry(
            config,
            world_before(config, world, ids, (k - 1) as nat),
            ids[k - 1],
        ).world
    }
}

/// The run of entry `k` of `ids`, when the entries are ingested one after
/// the other from `world`.
pub open spec fn entry_run(config: IngestConfig, world: World, ids: Seq<Seq<char>>, k: nat) -> Run {
    ingest_entry(config, world_before(config, world, ids, k), ids[k as int])
}

/// Whether no asset of `other` is cached in the place of the failure memo
/// of `shader`.
pub open spec fn assets_beside_memo(config: IngestConfig, shader: Shader, other: Shader) -> bool {
    forall|q: int, j: int|
        #[trigger] has_asset_at(other, q, j) ==> asset_at(other, q, j) != memo_of(config, shader)
}

/// Whether the failure memos of `shader` and `other` are the same only if
/// their sources are.
pub open spec fn memos_tell_sources(config: IngestConfig, shader: Shader, other: Shader) -> bool {
    memo_of(config, other) == memo_of(config, shader) ==> first_source(config, other)
        == first_source(config, shader)
}

/// What holds of a run with respect to an entry `id` that was ingested
/// before with the definition `shader`: the cache keeps what that entry
/// needs, and if `absent`, its failure memo stays absent.
pub open spec fn beside(
    config: IngestConfig,
    world: World,
    job: EntryJobView,
    id: Seq<char>,
    shader: Shader,
    absent: bool,
) -> bool {
    &&& job.wf(config)
    &&& saturated(world, id, shader)
    &&& job.phase == Phase::DefinitionFetch || job.phase == Phase::DefinitionStore
        ==> definition_path_of(job.id) != definition_path_of(id)
    &&& absent ==> {
        &&& !world.files.contains(memo_of(config, shader))
        &&& world.buildable.contains(first_source(config, shader))
        &&& job.phase == Phase::MemoWrite ==> !world.buildable.contains(job.source)
    }
}

/// One request of a run leaves alone what an entry that was ingested before
/// needs.
pub proof fn lemma_beside_step(
    config: IngestConfig,
    world: World,
    job: EntryJobView,
    id: Seq<char>,
    shader: Shader,
    absent: bool,
)
    requires
        beside(config, world, job, id, shader, absent),
        job.phase != Phase::Finished,
        !(job.phase is Aborted),
        ({
            let event = respond(world, job, pending(config, job)).1;
            let next = step_of(config, job, event).0;
            next.shader is Some ==> {
                &&& assets_beside_definition(id, next.shader.unwrap())
                &&& absent ==> assets_beside_memo(config, shader, next.shader.unwrap())
                    && memos_tell_sources(config, shader, next.shader.unwrap())
            }
        }),
    ensures
        ({
            let (answered, event, calls) = respond(world, job, pending(config, job));
            let next = step_of(config, job, event).0;
            &&& beside(config, answered, next, id, shader, absent)
            &&& world.files.subset_of(answered.files)
            &&& answered.buildable == world.buildable
        }),
{
    let (answered, event, calls) = respond(world, job, pending(config, job));
    let next = step_of(config, job, event).0;
    lemma_step_keeps_wf(config, job, event);
    let whole = shader.renderpass@.len() as int;
    match job.phase {
        Phase::DefinitionStore => {
            lemma_memo_is_elsewhere(
                first_source(config, shader),
                config.format_version,
                job.id,
                job.id,
            );
            crate::rerun::lemma_assets_stay(world, answered, shader, whole, 0);
        },
        Phase::SourceWrite => {
            let stem = pass_stem_of(job.id, job.current_pass().name@);
            lemma_definition_is_no_source(id, stem);
            lemma_memo_is_elsewhere(
                first_source(config, shader),
                config.format_version,
                job.id,
                job.current_pass().name@,
            );
            crate::rerun::lemma_assets_stay(world, answered, shader, whole, 0);
        },
        Phase::MemoWrite => {
            lemma_memo_is_elsewhere(job.source, config.format_version, id, id);
            crate::rerun::lemma_assets_stay(world, answered, shader, whole, 0);
        },
        Phase::AssetWrite => {
            assert(has_asset_at(job.shader.unwrap(), job.pass, job.input));
            crate::rerun::lemma_assets_stay(world, answered, shader, whole, 0);
        },
        Phase::Build => {
            crate::rerun::lemma_assets_stay(world, answered, shader, whole, 0);
        },
        _ => {},
    }
}

/// A whole run leaves alone what an entry that was ingested before needs.
pub proof fn lemma_beside_run(
    config: IngestConfig,
    world: World,
    job: EntryJobView,
    fetches: nat,
    id: Seq<char>,
    shader: Shader,
    absent: bool,
)
    requires
        beside(config, world, job, id, shader, absent),
        ({
            let end = run(config, world, job, fetches);
            end.job.shader is Some ==> {
                &&& assets_beside_definition(id, end.job.shader.unwrap())
                &&& absent ==> assets_beside_memo(config, shader, end.job.shader.unwrap())
                    && memos_tell_sources(config, shader, end.job.shader.unwrap())
            }
        }),
    ensures
        ({
            let end = run(config, world, job, fetches);
            &&& beside(config, end.world, end.job, id, shader, absent)
            &&& world.files.subset_of(end.world.files)
            &&& end.world.buildable == world.buildable
        }),
    decreases rank(job), work(job),
{
    if job.phase != Phase::Finished && !(job.phase is Aborted) {
        let (answered, event, calls) = respond(world, job, pending(config, job));
        let next = step_of(config, job, event).0;
        lemma_step_progress(config, job, event);
        lemma_step_keeps_wf(config, job, event);
        lemma_run_ends(config, answered, next, fetches + calls);
        lemma_beside_step(config, world, job, id, shader, absent);
        lemma_beside_run(config, answered, next, fetches + calls, id, shader, absent);
    }
}

/// The definition that the first pass over `ids` worked with for entry `k`.
pub open spec fn definition_of(
    config: IngestConfig,
    world: World,
    ids: Seq<Seq<char>>,
    k: nat,
) -> Shader {
    entry_run(config, world, ids, k).job.shader.unwrap()
}

/// Whether the verdict on `shader` depends on its failure memo: its pass
/// is eligible, it is not on the denylist, and a backend is present.
pub open spec fn memo_matters(config: IngestConfig, shader: Shader) -> bool {
    &&& eligible(shader, 0)
    &&& !crate::ingest::denylisted(config.denylist@, shader.info.id@)
    &&& config.build
}

/// Whether the failure memo of entry `k` has to stay absent: the verdict
/// depends on it, and it is absent after the first run of the entry
/// although the source builds.
pub open spec fn memo_absent(
    config: IngestConfig,
    world: World,
    ids: Seq<Seq<char>>,
    k: nat,
) -> bool {
    let shader = definition_of(config, world, ids, k);
    &&& memo_matters(config, shader)
    &&& !world_before(config, world, ids, k + 1).files.contains(memo_of(config, shader))
    &&& world.buildable.contains(first_source(config, shader))
}

/// Whether the entries of `ids` keep out of each other's way: no asset of
/// one is cached in the place of the definition of another; and where the
/// failure memo of an entry has to stay absent, no asset of another is
/// cached in its place, and no other memo is the same unless the sources
/// are.
#[verifier::opaque]
pub open spec fn entries_apart(config: IngestConfig, world: World, ids: Seq<Seq<char>>) -> bool {
    forall|j: nat, k: nat|
        j < ids.len() && k < ids.len() ==> {
            let mine = definition_of(config, world, ids, k);
            let other = #[trigger] definition_of(config, world, ids, j);
            &&& assets_beside_definition(#[trigger] ids[k as int], other)
            &&& memo_absent(config, world, ids, k) ==> assets_beside_memo(config, mine, other)
                && memos_tell_sources(config, mine, other)
        }
}

/// Whether every entry of `ids` was ingested to the end.
#[verifier::opaque]
pub open spec fn all_finished(config: IngestConfig, world: World, ids: Seq<Seq<char>>) -> bool {
    forall|k: nat|
        k < ids.len() ==> (#[trigger] entry_run(config, world, ids, k)).job.phase
            == Phase::Finished
}

/// What it means for the entries `j` and `k` that the entries keep out of
/// each other's way.
pub proof fn lemma_apart_at(config: IngestConfig, world: World, ids: Seq<Seq<char>>, j: nat, k: nat)
    requires
        entries_apart(config, world, ids),
        j < ids.len(),
        k < ids.len(),
    ensures
        assets_beside_definition(ids[k as int], definition_of(config, world, ids, j)),
        memo_absent(config, world, ids, k) ==> assets_beside_memo(
            config,
            definition_of(config, world, ids, k),
            definition_of(config, world, ids, j),
        ) && memos_tell_sources(
            config,
            definition_of(config, world, ids, k),
            definition_of(config, world, ids, j),
        ),
{
    reveal(entries_apart);
    let other = definition_of(config, world, ids, j);
    let id = ids[k as int];
}

/// What it means for entry `k` that every entry was ingested to the end.
pub proof fn lemma_finished_at(config: IngestConfig, world: World, ids: Seq<Seq<char>>, k: nat)
    requires
        all_finished(config, world, ids),
        k < ids.len(),
    ensures
        entry_run(config, world, ids, k).job.phase == Phase::Finished,
{
    reveal(all_finished);
}

/// What the first pass found out about entry `k`: it worked with one
/// definition, left the cache holding everything the entry needs, and came
/// to the verdict that was due.
pub proof fn lemma_first_run_has_filled(
    config: IngestConfig,
    world: World,
    ids: Seq<Seq<char>>,
    k: nat,
)
    requires
        k < ids.len(),
        all_finished(config, world, ids),
        entries_apart(config, world, ids),
    ensures
        ({
            let first = entry_run(config, world, ids, k);
            let shader = definition_of(config, world, ids, k);
            &&& first.job.shader == Some(shader)
            &&& first.world == world_before(config, world, ids, k + 1)
            &&& first.world.buildable == world_before(config, world, ids, k).buildable
            &&& world_before(config, world, ids, k).files.subset_of(first.world.files)
            &&& saturated(first.world, ids[k as int], shader)
            &&& crate::rerun::known_before(shader, shader.renderpass@.len() as int)
            &&& verdict(first.job.status) == verdict_due(
                config,
                shader,
                first.world.files.contains(memo_of(config, shader)),
                first.world.buildable.contains(first_source(config, shader)),
            )
        }),
{
    let before = world_before(config, world, ids, k);
    let start = started(ids[k as int]).0;
    lemma_apart_at(config, world, ids, k, k);
    lemma_finished_at(config, world, ids, k);
    lemma_run_ends(config, before, start, 0);
    lemma_run_grows(config, before, start, 0);
    lemma_finished_run_has_filled(config, before, start, 0);
}

/// A run only adds to the cache, and does not change what the backend
/// builds.
pub proof fn lemma_run_grows(config: IngestConfig, world: World, job: EntryJobView, fetches: nat)
    requires
        job.wf(config),
    ensures
        ({
            let end = run(config, world, job, fetches);
            &&& world.files.subset_of(end.world.files)
            &&& end.world.buildable == world.buildable
        }),
    decreases rank(job), work(job),
{
    if job.phase != Phase::Finished && !(job.phase is Aborted) {
        let (answered, event, calls) = respond(world, job, pending(config, job));
        let next = step_of(config, job, event).0;
        lemma_step_progress(config, job, event);
        lemma_step_keeps_wf(config, job, event);
        lemma_run_grows(config, answered, next, fetches + calls);
    }
}

/// An entry that is ingested against a cache that holds all it needs is
/// finished without a use of the network, with the verdict that is due.
pub proof fn lemma_rerun_entry(config: IngestConfig, before: World, id: Seq<char>, shader: Shader)
    requires
        saturated(before, id, shader),
        crate::rerun::known_before(shader, shader.renderpass@.len() as int),
    ensures
        ({
            let second = ingest_entry(config, before, id);
            &&& second.fetches == 0
            &&& second.job.phase == Phase::Finished
            &&& second.job.shader == Some(shader)
            &&& verdict(second.job.status) == verdict_due(
                config,
                shader,
                before.files.contains(memo_of(config, shader)),
                before.buildable.contains(first_source(config, shader)),
            )
        }),
{
    let start = started(id).0;
    assert(replaying(config, before, start, shader, before));
    lemma_replay_is_idle(config, before, start, 0, shader, before);
}

/// An entry that is ingested leaves alone what another entry needs.
pub proof fn lemma_entry_leaves_alone(
    config: IngestConfig,
    before: World,
    running: Seq<char>,
    id: Seq<char>,
    shader: Shader,
    absent: bool,
)
    requires
        saturated(before, id, shader),
        absent ==> !before.files.contains(memo_of(config, shader)) && before.buildable.contains(
            first_source(config, shader),
        ),
        ({
            let end = ingest_entry(config, before, running);
            end.job.shader is Some ==> {
                &&& assets_beside_definition(id, end.job.shader.unwrap())
                &&& absent ==> assets_beside_memo(config, shader, end.job.shader.unwrap())
                    && memos_tell_sources(config, shader, end.job.shader.unwrap())
            }
        }),
    ensures
        ({
            let end = ingest_entry(config, before, running);
            &&& saturated(end.world, id, shader)
            &&& absent ==> !end.world.files.contains(memo_of(config, shader))
            &&& before.files.subset_of(end.world.files)
            &&& end.world.buildable == before.buildable
        }),
{
    let start = started(running).0;
    assert(beside(config, before, start, id, shader, absent));
    lemma_beside_run(config, before, start, 0, id, shader, absent);
}

/// The verdict that is due does not change while the failure memo stays as
/// it is, nor when a memo appears that the verdict does not depend on, or
/// one for a source that does not build anyway.
pub proof fn lemma_verdict_stands(
    config: IngestConfig,
    shader: Shader,
    before: bool,
    after: bool,
    buildable: bool,
)
    requires
        before ==> after,
        memo_matters(config, shader) && !before && buildable ==> !after,
    ensures
        verdict_due(config, shader, before, buildable) == verdict_due(
            config,
            shader,
            after,
            buildable,
        ),
{
}

/// What a pass over the list keeps up for entry `k`, seen from the world
/// `now`: the cache holds what the entry needs and whatever its first run
/// left, and its failure memo is absent if it has to be.
pub open spec fn kept(
    config: IngestConfig,
    world: World,
    ids: Seq<Seq<char>>,
    now: World,
    k: nat,
) -> bool {
    let shader = definition_of(config, world, ids, k);
    &&& saturated(now, ids[k as int], shader)
    &&& world_before(config, world, ids, k + 1).files.subset_of(now.files)
    &&& memo_absent(config, world, ids, k) ==> !now.files.contains(memo_of(config, shader))
}

/// What the first pass has achieved before entry `m`: the cache holds what
/// every earlier entry needs.
pub open spec fn settled(
    config: IngestConfig,
    world: World,
    ids: Seq<Seq<char>>,
    m: nat,
) -> bool {
    let now = world_before(config, world, ids, m);
    &&& now.buildable == world.buildable
    &&& forall|k: nat| k < m && k < ids.len() ==> #[trigger] kept(config, world, ids, now, k)
}

/// Ingesting one more entry keeps up what was kept up for entry `k`.
proof fn lemma_kept_on(
    config: IngestConfig,
    world: World,
    ids: Seq<Seq<char>>,
    before: World,
    j: nat,
    k: nat,
)
    requires
        j < ids.len(),
        k < ids.len(),
        entries_apart(config, world, ids),
        kept(config, world, ids, before, k),
        before.buildable == world.buildable,
        ingest_entry(config, before, ids[j as int]).job.shader is Some ==> ingest_entry(
            config,
            before,
            ids[j as int],
        ).job.shader == Some(definition_of(config, world, ids, j)),
    ensures
        kept(config, world, ids, ingest_entry(config, before, ids[j as int]).world, k),
        ingest_entry(config, before, ids[j as int]).world.buildable == world.buildable,
        before.files.subset_of(ingest_entry(config, before, ids[j as int]).world.files),
{
    let shader = definition_of(config, world, ids, k);
    let absent = memo_absent(config, world, ids, k);
    lemma_apart_at(config, world, ids, j, k);
    lemma_entry_leaves_alone(config, before, ids[j as int], ids[k as int], shader, absent);
}

/// The first pass settles entry after entry.
pub proof fn lemma_first_pass_settles(
    config: IngestConfig,
    world: World,
    ids: Seq<Seq<char>>,
    m: nat,
)
    requires
        m <= ids.len(),
        all_finished(config, world, ids),
        entries_apart(config, world, ids),
    ensures
        settled(config, world, ids, m),
    decreases m,
{
    if m > 0 {
        let last = (m - 1) as nat;
        lemma_first_pass_settles(config, world, ids, last);
        let before = world_before(config, world, ids, last);
        let now = world_before(config, world, ids, m);
        lemma_first_run_has_filled(config, world, ids, last);
        assert(now == ingest_entry(config, before, ids[last as int]).world);
        assert forall|k: nat| k < m && k < ids.len() implies #[trigger] kept(
            config,
            world,
            ids,
            now,
            k,
        ) by {
            if k < last {
                assert(kept(config, world, ids, before, k));
                lemma_kept_on(config, world, ids, before, last, k);
            }
        }
    }
}

/// What the second pass has achieved before entry `m`: the cache still
/// holds what every entry needs, and every earlier entry was ingested
/// again without a use of the network, with the verdict of the first pass.
pub open spec fn resettled(
    config: IngestConfig,
    world: World,
    ids: Seq<Seq<char>>,
    m: nat,
) -> bool {
    let again = world_before(config, world, ids, ids.len());
    let now = world_before(config, again, ids, m);
    &&& now.buildable == world.buildable
    &&& forall|k: nat| k < ids.len() ==> #[trigger] kept(config, world, ids, now, k)
    &&& forall|k: nat| k < m && k < ids.len() ==> #[trigger] same_again(config, world, ids, k)
}

/// Whether entry `k` was ingested the second time as it was the first
/// time, without a use of the network.
pub open spec fn same_again(
    config: IngestConfig,
    world: World,
    ids: Seq<Seq<char>>,
    k: nat,
) -> bool {
    let again = world_before(config, world, ids, ids.len());
    let first = entry_run(config, world, ids, k);
    let second = entry_run(config, again, ids, k);
    &&& second.fetches == 0
    &&& second.job.phase == Phase::Finished
    &&& second.job.shader == first.job.shader
    &&& verdict(second.job.status) == verdict(first.job.status)
}

/// An entry is ingested the second time as it was the first time, if the
/// cache holds what it needs, kept what its first run left, and got no
/// failure memo that it must not have.
proof fn lemma_rerun_matches(
    config: IngestConfig,
    world: World,
    ids: Seq<Seq<char>>,
    before: World,
    k: nat,
)
    requires
        k < ids.len(),
        all_finished(config, world, ids),
        entries_apart(config, world, ids),
        kept(config, world, ids, before, k),
        before.buildable == world.buildable,
        world_before(config, world, ids, k).buildable == world.buildable,
    ensures
        ({
            let first = entry_run(config, world, ids, k);
            let second = ingest_entry(config, before, ids[k as int]);
            &&& second.fetches == 0
            &&& second.job.phase == Phase::Finished
            &&& second.job.shader == first.job.shader
            &&& verdict(second.job.status) == verdict(first.job.status)
        }),
{
    let shader = definition_of(config, world, ids, k);
    let first = entry_run(config, world, ids, k);
    let memo = memo_of(config, shader);
    lemma_first_run_has_filled(config, world, ids, k);
    lemma_rerun_entry(config, before, ids[k as int], shader);
    lemma_verdict_stands(
        config,
        shader,
        first.world.files.contains(memo),
        before.files.contains(memo),
        world.buildable.contains(first_source(config, shader)),
    );
}

/// The second pass goes through the list as the first left it.
pub proof fn lemma_second_pass_resettles(
    config: IngestConfig,
    world: World,
    ids: Seq<Seq<char>>,
    m: nat,
)
    requires
        m <= ids.len(),
        all_finished(config, world, ids),
        entries_apart(config, world, ids),
    ensures
        resettled(config, world, ids, m),
    decreases m,
{
    let again = world_before(config, world, ids, ids.len());
    if m == 0 {
        lemma_first_pass_settles(config, world, ids, ids.len());
    } else {
        let last = (m - 1) as nat;
        lemma_second_pass_resettles(config, world, ids, last);
        lemma_first_pass_settles(config, world, ids, last);
        let before = world_before(config, again, ids, last);
        let now = world_before(config, again, ids, m);
        assert(kept(config, world, ids, before, last));
        lemma_rerun_matches(config, world, ids, before, last);
        assert(now == ingest_entry(config, before, ids[last as int]).world);
        assert(same_again(config, world, ids, last));
        lemma_first_run_has_filled(config, world, ids, last);
        assert forall|k: nat| k < ids.len() implies #[trigger] kept(config, world, ids, now, k) by {
            assert(kept(config, world, ids, before, k));
            lemma_kept_on(config, world, ids, before, last, k);
        }
        lemma_kept_on(config, world, ids, before, last, last);
    }
}

/// Ingesting a list of entries twice against an unchanged cache: if every
/// entry was ingested to the end the first time, then the second time
/// every entry is ingested to the end again, with the same definition and
/// the same verdict on its pipeline, and the network is not used once.
/// This is stated for lists whose entries keep out of each other's way.
pub proof fn lemma_second_pass_is_idle(config: IngestConfig, world: World, ids: Seq<Seq<char>>)
    requires
        all_finished(config, world, ids),
        entries_apart(config, world, ids),
    ensures
        ({
            let again = world_before(config, world, ids, ids.len());
            forall|k: nat|
                k < ids.len() ==> {
                    let first = entry_run(config, world, ids, k);
                    let second = #[trigger] entry_run(config, again, ids, k);
                    &&& second.fetches == 0
                    &&& second.job.phase == Phase::Finished
                    &&& second.job.shader == first.job.shader
                    &&& verdict(second.job.status) == verdict(first.job.status)
                    &&& (second.job.status is Built) == (first.job.status is Built)
                }
        }),
{
    let again = world_before(config, world, ids, ids.len());
    lemma_second_pass_resettles(config, world, ids, ids.len());
    assert forall|k: nat| k < ids.len() implies {
        let first = entry_run(config, world, ids, k);
        let second = #[trigger] entry_run(config, again, ids, k);
        &&& second.fetches == 0
        &&& second.job.phase == Phase::Finished
        &&& second.job.shader == first.job.shader
        &&& verdict(second.job.status) == verdict(first.job.status)
        &&& (second.job.status is Built) == (first.job.status is Built)
    } by {
        assert(same_again(config, world, ids, k));
    }
}

} // verus!
