//! What the ingestion job is bound to decide, whatever it is told: which
//! passes are built, when a build is skipped, and where failures are kept.

use vstd::prelude::*;
use vstd::utf8::encode_utf8;
use crate::ingest::{
    denylisted, eligible, step_of, BuildStatus, CommandView, EntryJobView, Event, IngestConfig,
    Phase,
};
use crate::layout::{failure_memo_path_of, lemma_memo_path_tells_version, pass_stem_of};

verus! {

/// A build is asked for only of a pass that is eligible, of a shader that
/// is not on the denylist, and only while a backend is present; and only
/// then is a pipeline on record.
pub proof fn lemma_build_only_when_eligible(config: IngestConfig, job: EntryJobView, event: Event)
    requires
        job.wf(config),
    ensures
        ({
            let (next, command) = step_of(config, job, event);
            (command is Build || next.status is Built) ==> {
                &&& next.shader matches Some(shader)
                &&& eligible(shader, 0)
                &&& !denylisted(config.denylist@, shader.info.id@)
                &&& config.build
            }
        }),
{
    crate::ingest::lemma_step_keeps_wf(config, job, event);
}

/// A shader that does not consist of exactly one pass never has a build
/// asked for, and never has a pipeline on record, even if one of its passes
/// is an image pass without inputs.
pub proof fn lemma_multipass_never_builds(config: IngestConfig, job: EntryJobView, event: Event)
    requires
        job.wf(config),
    ensures
        ({
            let (next, command) = step_of(config, job, event);
            next.shader matches Some(shader) && shader.renderpass@.len() != 1 ==> !(command
                is Build) && !(next.status is Built)
        }),
{
    lemma_build_only_when_eligible(config, job, event);
}

/// A shader on the denylist never has a build asked for, nor a failure
/// memo consulted or written, nor a pipeline on record.
pub proof fn lemma_denylisted_never_builds(config: IngestConfig, job: EntryJobView, event: Event)
    requires
        job.wf(config),
    ensures
        ({
            let (next, command) = step_of(config, job, event);
            next.shader matches Some(shader) && denylisted(config.denylist@, shader.info.id@) ==> {
                &&& !(command is Build)
                &&& !next.building()
                &&& !(next.status is Built)
                &&& next.status != BuildStatus::Failed
                &&& next.status != BuildStatus::KnownFailure
            }
        }),
{
    crate::ingest::lemma_step_keeps_wf(config, job, event);
}

/// Once the source of an eligible pass is written, and the shader is not on
/// the denylist and a backend is present, the job consults the failure memo
/// of that source; told that there is none, it asks for the build of
/// exactly that source.
pub proof fn lemma_eligible_pass_is_attempted(config: IngestConfig, job: EntryJobView)
    requires
        job.wf(config),
        job.phase == Phase::SourceWrite,
        eligible(job.shader.unwrap(), job.pass),
        !denylisted(config.denylist@, job.shader.unwrap().info.id@),
        config.build,
    ensures
        ({
            let (probing, probe) = step_of(config, job, Event::Done);
            let (building, build) = step_of(config, probing, Event::Probed(false));
            &&& probe == CommandView::Probe {
                path: failure_memo_path_of(job.source, config.format_version),
            }
            &&& build == CommandView::Build {
                stem: pass_stem_of(job.id, job.current_pass().name@),
                source: job.source,
            }
            &&& building.phase == Phase::Build
        }),
{
}

/// Told that the failure memo of the source exists, the job asks for no
/// build: it marks the failure as known and is finished.
pub proof fn lemma_known_failure_is_not_rebuilt(config: IngestConfig, job: EntryJobView)
    requires
        job.wf(config),
        job.phase == Phase::MemoProbe,
    ensures
        ({
            let (next, command) = step_of(config, job, Event::Probed(true));
            &&& command == CommandView::Stop
            &&& next.phase == Phase::Finished
            &&& next.status == BuildStatus::KnownFailure
        }),
{
    let inputs = job.current_pass().inputs@;
    assert(crate::ingest::next_asset(inputs, 0) == 0);
}

/// A failed build is recorded where a later job looks for it: the memo is
/// written under the path that any job with the same source and the same
/// pipeline format version consults before it builds. Under another
/// version the path differs, so that the memo is not found and the build is
/// attempted again.
pub proof fn lemma_failure_is_memoized(
    config: IngestConfig,
    job: EntryJobView,
    message: String,
    later_config: IngestConfig,
    later: EntryJobView,
)
    requires
        job.wf(config),
        job.phase == Phase::Build,
        later.wf(later_config),
        later.phase == Phase::SourceWrite,
        eligible(later.shader.unwrap(), later.pass),
        !denylisted(later_config.denylist@, later.shader.unwrap().info.id@),
        later_config.build,
        later.source == job.source,
    ensures
        ({
            let written = step_of(config, job, Event::BuildFailed(message)).1;
            let consulted = step_of(later_config, later, Event::Done).1;
            &&& written matches CommandView::Write { path: memo, contents }
            &&& contents == encode_utf8(message@)
            &&& consulted matches CommandView::Probe { path: probed }
            &&& config.format_version == later_config.format_version ==> probed == memo
            &&& config.format_version != later_config.format_version ==> probed != memo
        }),
{
    if config.format_version != later_config.format_version {
        let memo = failure_memo_path_of(job.source, config.format_version);
        let probed = failure_memo_path_of(later.source, later_config.format_version);
        if probed == memo {
            lemma_memo_path_tells_version(
                job.source,
                config.format_version,
                later.source,
                later_config.format_version,
            );
        }
    }
}

} // verus!
