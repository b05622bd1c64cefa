//! The release orchestrator's decision steps, as pure verified functions: the
//! entry step that promotes a waiting release into deployment, the per-item
//! completion fold, and the finalization that derives the release's terminal
//! status from its items. The surrounding process spawning, storage access and
//! awaiting live outside the library and call these steps between the
//! suspension points.

use vstd::prelude::*;
use crate::release::{spec_aggregate_progress, spec_find_item, DeploymentItem, Release};
use crate::status::ReleaseStatus;
use crate::text::str_eq;

verus! {

/// The item as the deployment entry step leaves it: same name, logs and
/// error, with its status set to the release's deploying status.
pub open spec fn spec_started_item(it: DeploymentItem, st: ReleaseStatus) -> DeploymentItem {
    DeploymentItem { status: st, ..it }
}

/// The item as the per-item completion fold leaves it: on failure its status
/// becomes `Error` and the message is recorded; on success its status follows
/// the release's deploying status, and is kept when the release is not in a
/// deploying status.
pub open spec fn spec_completed_item(
    it: DeploymentItem,
    release_status: ReleaseStatus,
    outcome: Result<(), String>,
) -> DeploymentItem {
    match outcome {
        Result::Err(m) => DeploymentItem {
            status: ReleaseStatus::Error,
            error: Some(m),
            ..it
        },
        Result::Ok(_) => DeploymentItem {
            status: match release_status {
                ReleaseStatus::DeployingToStaging => ReleaseStatus::ReadyToTestInStaging,
                ReleaseStatus::DeployingToProduction => ReleaseStatus::ReadyToTestInProduction,
                _ => it.status,
            },
            ..it
        },
    }
}

/// The terminal status a deploying release reaches when every item succeeded;
/// a release not in a deploying status keeps its status.
pub open spec fn spec_ready_status_after_deploy(s: ReleaseStatus) -> ReleaseStatus {
    match s {
        ReleaseStatus::DeployingToStaging => ReleaseStatus::ReadyToTestInStaging,
        ReleaseStatus::DeployingToProduction => ReleaseStatus::ReadyToTestInProduction,
        _ => s,
    }
}

/// The deployment entry step is idempotent: once the entry step has promoted
/// a release's status to its deploying status and stamped that status on an
/// item, promoting and stamping again changes neither the status nor the
/// item, and the release still selects for processing.
pub proof fn lemma_start_deployment_idempotent(status: ReleaseStatus, it: DeploymentItem)
    requires
        status.spec_should_process(),
    ensures
        ({
            let s1 = status.spec_deploying_status();
            &&& s1.spec_should_process()
            &&& s1.spec_deploying_status() == s1
            &&& spec_started_item(spec_started_item(it, s1), s1.spec_deploying_status())
                == spec_started_item(it, s1)
        }),
{
}

/// The deployment entry step: a waiting release is promoted to the
/// corresponding deploying status, its progress is reset, and every item is
/// stamped with the new status. A release the scheduler should not process is
/// left untouched and `false` comes back. Already-deploying releases keep
/// their status, so running the step twice equals running it once (see
/// `lemma_start_deployment_idempotent`).
pub fn start_deployment(release: &mut Release) -> (started: bool)
    ensures
        started == old(release).status.spec_should_process(),
        !started ==> *final (release) == *old(release),
        started ==> ({
            let r0 = *old(release);
            let r1 = *final (release);
            &&& r1.status == r0.status.spec_deploying_status()
            &&& r1.progress == 0
            &&& r1.deployment_items@.len() == r0.deployment_items@.len()
            &&& forall|i: int|
                0 <= i < r0.deployment_items@.len() ==> r1.deployment_items@[i]
                    == spec_started_item(#[trigger] r0.deployment_items@[i], r1.status)
            &&& r1.id == r0.id
            &&& r1.title == r0.title
            &&& r1.client_id == r0.client_id
            &&& r1.current_environment == r0.current_environment
            &&& r1.target_environment == r0.target_environment
            &&& r1.created_at == r0.created_at
            &&& r1.scheduled_at == r0.scheduled_at
            &&& r1.created_by == r0.created_by
            &&& r1.skip_staging == r0.skip_staging
            &&& r1.wf()
        }),
{
    if !release.should_process() {
        return false;
    }
    let next = match release.status {
        ReleaseStatus::WaitingForStaging => ReleaseStatus::DeployingToStaging,
        ReleaseStatus::WaitingForProduction | ReleaseStatus::WaitingForProductionFromStaging =>
            ReleaseStatus::DeployingToProduction,
        _ => release.status,
    };
    release.status = next;
    release.progress = 0;
    let ghost items0 = release.deployment_items@;
    let mut i: usize = 0;
    while i < release.deployment_items.len()
        invariant
            i <= items0.len(),
            release.deployment_items@.len() == items0.len(),
            forall|k: int|
                0 <= k < i ==> release.deployment_items@[k] == spec_started_item(
                    #[trigger] items0[k],
                    next,
                ),
            forall|k: int| i <= k < items0.len() ==> release.deployment_items@[k] == items0[k],
            release.id == old(release).id,
            release.title == old(release).title,
            release.client_id == old(release).client_id,
            release.current_environment == old(release).current_environment,
            release.target_environment == old(release).target_environment,
            release.created_at == old(release).created_at,
            release.scheduled_at == old(release).scheduled_at,
            release.created_by == old(release).created_by,
            release.skip_staging == old(release).skip_staging,
            release.status == next,
            release.progress == 0,
            next == old(release).status.spec_deploying_status(),
            items0 == old(release).deployment_items@,
        decreases items0.len() - i,
    {
        release.deployment_items[i].status = next;
        i = i + 1;
    }
    true
}

/// The index of the first item with the given name, if any.
fn find_item(items: &Vec<DeploymentItem>, name: &str) -> (r: Option<usize>)
    ensures
        match r {
            Some(i) => spec_find_item(items@, name@) == Some(i as int) && i < items@.len()
                && items@[i as int].name@ == name@,
            None => spec_find_item(items@, name@) is None,
        },
{
    let mut i: usize = 0;
    while i < items.len()
        invariant
            i <= items@.len(),
            forall|k: int| 0 <= k < i ==> (#[trigger] items@[k].name@) != name@,
        decreases items@.len() - i,
    {
        if str_eq(items[i].name.as_str(), name) {
            proof {
                let w = choose|w: int|
                    0 <= w < items@.len() && items@[w].name@ == name@ && forall|j: int|
                        0 <= j < w ==> items@[j].name@ != name@;
                assert(spec_find_item(items@, name@) == Some(w));
                assert(!(w < i) && !(i < w));
            }
            return Some(i);
        }
        i = i + 1;
    }
    None
}

/// The per-item completion fold: when a runner for `item_name` finishes with
/// `outcome`, the first item of that name takes the outcome (error recorded,
/// or status advanced to match the deploying release), and the release's
/// aggregate progress is recomputed as the successful share of its items. The
/// release's own status is not touched here; only finalization changes it. A
/// release with no item of that name is left untouched and `false` comes
/// back.
pub fn apply_item_result(release: &mut Release, item_name: &str, outcome: Result<
    (),
    String,
>) -> (found: bool)
    ensures
        found == (spec_find_item(old(release).deployment_items@, item_name@) is Some),
        !found ==> *final (release) == *old(release),
        found ==> ({
            let r0 = *old(release);
            let r1 = *final (release);
            let i = spec_find_item(r0.deployment_items@, item_name@)->Some_0;
            &&& r1.deployment_items@ == r0.deployment_items@.update(
                i,
                spec_completed_item(r0.deployment_items@[i], r0.status, outcome),
            )
            &&& r1.progress == spec_aggregate_progress(r1.deployment_items@)
            &&& r1.status == r0.status
            &&& r1.id == r0.id
            &&& r1.title == r0.title
            &&& r1.client_id == r0.client_id
            &&& r1.current_environment == r0.current_environment
            &&& r1.target_environment == r0.target_environment
            &&& r1.created_at == r0.created_at
            &&& r1.scheduled_at == r0.scheduled_at
            &&& r1.created_by == r0.created_by
            &&& r1.skip_staging == r0.skip_staging
            &&& r1.wf()
        }),
{
    let found = find_item(&release.deployment_items, item_name);
    let i = match found {
        Some(i) => i,
        None => {
            return false;
        },
    };
    match outcome {
        Result::Err(m) => {
            release.deployment_items[i].status = ReleaseStatus::Error;
            release.deployment_items[i].error = Some(m);
        },
        Result::Ok(_) => {
            let next = match release.status {
                ReleaseStatus::DeployingToStaging => ReleaseStatus::ReadyToTestInStaging,
                ReleaseStatus::DeployingToProduction => ReleaseStatus::ReadyToTestInProduction,
                _ => release.deployment_items[i].status,
            };
            release.deployment_items[i].status = next;
        },
    }
    proof {
        assert(release.deployment_items@ =~= old(release).deployment_items@.update(
            i as int,
            spec_completed_item(
                old(release).deployment_items@[i as int],
                old(release).status,
                outcome,
            ),
        ));
    }
    let p = release.calculate_progress();
    release.progress = p;
    true
}

/// Finalization: once every item is terminal, the release's own status is
/// derived from them. Any item in error makes the whole release `Error` with
/// progress reset to zero, whatever the other items did; with no errors the
/// release becomes ready to test in the environment it deployed to, progress
/// becomes 100, and every non-error item is stamped with that status. While
/// some item is still running the release is left untouched and `false` comes
/// back, for a later scheduler pass to retry.
pub fn finalize_release(release: &mut Release) -> (done: bool)
    ensures
        done == old(release).spec_all_items_completed(),
        !done ==> *final (release) == *old(release),
        done ==> ({
            let r0 = *old(release);
            let r1 = *final (release);
            &&& r1.id == r0.id
            &&& r1.title == r0.title
            &&& r1.client_id == r0.client_id
            &&& r1.current_environment == r0.current_environment
            &&& r1.target_environment == r0.target_environment
            &&& r1.created_at == r0.created_at
            &&& r1.scheduled_at == r0.scheduled_at
            &&& r1.created_by == r0.created_by
            &&& r1.skip_staging == r0.skip_staging
            &&& r1.wf()
            &&& if r0.spec_has_errors() {
                &&& r1.status == ReleaseStatus::Error
                &&& r1.progress == 0
                &&& r1.deployment_items@ == r0.deployment_items@
            } else {
                &&& r1.status == spec_ready_status_after_deploy(r0.status)
                &&& r1.progress == 100
                &&& r1.deployment_items@.len() == r0.deployment_items@.len()
                &&& forall|i: int|
                    0 <= i < r0.deployment_items@.len() ==> r1.deployment_items@[i]
                        == spec_started_item(#[trigger] r0.deployment_items@[i], r1.status)
            }
        }),
{
    if !release.all_items_completed() {
        return false;
    }
    if release.has_errors() {
        release.status = ReleaseStatus::Error;
        release.progress = 0;
        return true;
    }
    let next = match release.status {
        ReleaseStatus::DeployingToStaging => ReleaseStatus::ReadyToTestInStaging,
        ReleaseStatus::DeployingToProduction => ReleaseStatus::ReadyToTestInProduction,
        _ => release.status,
    };
    release.status = next;
    release.progress = 100;
    let ghost items0 = release.deployment_items@;
    let mut i: usize = 0;
    while i < release.deployment_items.len()
        invariant
            i <= items0.len(),
            release.deployment_items@.len() == items0.len(),
            forall|k: int| i <= k < items0.len() ==> release.deployment_items@[k] == items0[k],
            forall|k: int|
                0 <= k < i ==> release.deployment_items@[k] == spec_started_item(
                    #[trigger] items0[k],
                    next,
                ) || (items0[k].status == ReleaseStatus::Error && release.deployment_items@[k]
                    == items0[k]),
            release.id == old(release).id,
            release.title == old(release).title,
            release.client_id == old(release).client_id,
            release.current_environment == old(release).current_environment,
            release.target_environment == old(release).target_environment,
            release.created_at == old(release).created_at,
            release.scheduled_at == old(release).scheduled_at,
            release.created_by == old(release).created_by,
            release.skip_staging == old(release).skip_staging,
            release.status == next,
            release.progress == 100,
            next == spec_ready_status_after_deploy(old(release).status),
            items0 == old(release).deployment_items@,
        decreases items0.len() - i,
    {
        let is_err = match release.deployment_items[i].status {
            ReleaseStatus::Error => true,
            _ => false,
        };
        if !is_err {
            release.deployment_items[i].status = next;
        }
        i = i + 1;
    }
    proof {
        assert(forall|k: int|
            0 <= k < items0.len() ==> (#[trigger] items0[k].status) != ReleaseStatus::Error);
    }
    true
}

/// The releases of `releases` that the scheduler should pick up, in order.
pub open spec fn spec_releases_to_process(rs: Seq<Release>) -> Seq<Release>
    decreases rs.len(),
{
    if rs.len() == 0 {
        Seq::empty()
    } else {
        let rest = spec_releases_to_process(rs.drop_last());
        if rs.last().status.spec_should_process() {
            rest.push(rs.last())
        } else {
            rest
        }
    }
}

/// Selects the releases the scheduler should pick up, keeping their order.
pub fn releases_to_process(releases: Vec<Release>) -> (r: Vec<Release>)
    ensures
        r@ == spec_releases_to_process(releases@),
{
    let ghost orig = releases@;
    let n = releases.len();
    let mut rest = releases;
    let mut out: Vec<Release> = Vec::new();
    let mut i: usize = 0;
    while rest.len() > 0
        invariant
            n == orig.len(),
            i + rest@.len() == orig.len(),
            rest@ == orig.subrange(i as int, orig.len() as int),
            out@ == spec_releases_to_process(orig.subrange(0, i as int)),
        decreases rest@.len(),
    {
        let r = rest.remove(0);
        proof {
            let pre = orig.subrange(0, i as int);
            let post = orig.subrange(0, i + 1 as int);
            assert(post.drop_last() =~= pre);
            assert(post.last() == orig[i as int]);
            assert(rest@ =~= orig.subrange(i + 1 as int, orig.len() as int));
        }
        if r.should_process() {
            out.push(r);
        }
        i = i + 1;
    }
    proof {
        assert(orig.subrange(0, orig.len() as int) =~= orig);
    }
    out
}

} // verus!
