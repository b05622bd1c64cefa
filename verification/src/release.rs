//! Releases and their deployment items: the records the pipeline drives, with
//! derived progress and completion predicates.

use vstd::prelude::*;
use crate::status::{Environment, ReleaseStatus};
use crate::ids::{fresh_id, now_millis};

verus! {

/// One independently executed unit of work within a release, such as the data
/// load, the search index or the application itself. Its log is append-only
/// and its error, once set, records the first failure.
#[derive(Clone, Debug)]
pub struct DeploymentItem {
    pub name: String,
    pub status: ReleaseStatus,
    pub logs: Vec<String>,
    pub error: Option<String>,
}

/// One client's passage through the pipeline. Timestamps are milliseconds
/// since the Unix epoch; `progress` is a percentage between 0 and 100.
#[derive(Clone, Debug)]
pub struct Release {
    pub id: String,
    pub title: String,
    pub client_id: String,
    pub current_environment: Environment,
    pub target_environment: Environment,
    pub deployment_items: Vec<DeploymentItem>,
    pub created_at: i64,
    pub scheduled_at: i64,
    pub status: ReleaseStatus,
    pub created_by: String,
    pub progress: u32,
    pub skip_staging: bool,
}

/// An item has finished successfully: it is ready to test, or already
/// cleared, in its environment.
pub open spec fn spec_item_success(s: ReleaseStatus) -> bool {
    s == ReleaseStatus::ReadyToTestInStaging || s == ReleaseStatus::ReadyToTestInProduction || s
        == ReleaseStatus::ClearedInStaging || s == ReleaseStatus::ClearedInProduction
}

/// An item has reached a terminal state: success or error.
pub open spec fn spec_item_terminal(s: ReleaseStatus) -> bool {
    spec_item_success(s) || s == ReleaseStatus::Error
}

/// How many items of the sequence have finished successfully.
pub open spec fn spec_count_success(items: Seq<DeploymentItem>) -> nat
    decreases items.len(),
{
    if items.len() == 0 {
        0
    } else {
        spec_count_success(items.drop_last()) + if spec_item_success(items.last().status) {
            1nat
        } else {
            0nat
        }
    }
}

/// The aggregate progress of a non-empty item sequence: the successful share,
/// as a percentage rounded down.
pub open spec fn spec_aggregate_progress(items: Seq<DeploymentItem>) -> nat
    recommends
        items.len() > 0,
{
    (100 * spec_count_success(items)) / items.len()
}

/// The index of the first item with the given name, if any.
pub open spec fn spec_find_item(items: Seq<DeploymentItem>, name: Seq<char>) -> Option<int> {
    if exists|i: int| 0 <= i < items.len() && items[i].name@ == name {
        Some(
            choose|i: int|
                0 <= i < items.len() && items[i].name@ == name && forall|j: int|
                    0 <= j < i ==> items[j].name@ != name,
        )
    } else {
        None
    }
}

/// Counts the items of `items` that have finished successfully.
fn count_success(items: &Vec<DeploymentItem>) -> (r: usize)
    ensures
        r == spec_count_success(items@),
        r <= items@.len(),
{
    let mut r: usize = 0;
    let mut i: usize = 0;
    while i < items.len()
        invariant
            i <= items@.len(),
            r == spec_count_success(items@.subrange(0, i as int)),
            r <= i,
        decreases items@.len() - i,
    {
        proof {
            let pre = items@.subrange(0, i as int);
            assert(items@.subrange(0, i + 1 as int).drop_last() =~= pre);
        }
        if item_success(&items[i].status) {
            r = r + 1;
        }
        i = i + 1;
    }
    proof {
        assert(items@.subrange(0, items@.len() as int) =~= items@);
    }
    r
}

/// Whether an item status counts as finished successfully.
pub fn item_success(s: &ReleaseStatus) -> (r: bool)
    ensures
        r == spec_item_success(*s),
{
    match s {
        ReleaseStatus::ReadyToTestInStaging
        | ReleaseStatus::ReadyToTestInProduction
        | ReleaseStatus::ClearedInStaging
        | ReleaseStatus::ClearedInProduction => true,
        _ => false,
    }
}

/// Whether an item status is terminal: success or error.
pub fn item_terminal(s: &ReleaseStatus) -> (r: bool)
    ensures
        r == spec_item_terminal(*s),
{
    match s {
        ReleaseStatus::ReadyToTestInStaging
        | ReleaseStatus::ReadyToTestInProduction
        | ReleaseStatus::ClearedInStaging
        | ReleaseStatus::ClearedInProduction
        | ReleaseStatus::Error => true,
        _ => false,
    }
}

impl Release {
    /// A release is well formed when its progress is a percentage.
    pub open spec fn wf(self) -> bool {
        self.progress <= 100
    }

    /// Creates a release in development with one fresh item per name, no logs
    /// and no errors, stamped with a fresh identifier and the current time.
    pub fn new(
        title: String,
        client_id: String,
        current_environment: Environment,
        target_environment: Environment,
        deployment_items: Vec<String>,
        scheduled_at: i64,
        created_by: String,
        skip_staging: bool,
    ) -> (r: Release)
        ensures
            r.title == title,
            r.client_id == client_id,
            r.current_environment == current_environment,
            r.target_environment == target_environment,
            r.scheduled_at == scheduled_at,
            r.created_by == created_by,
            r.skip_staging == skip_staging,
            r.status == ReleaseStatus::InDevelopment,
            r.progress == 0,
            r.id@.len() == 36,
            r.deployment_items@.len() == deployment_items@.len(),
            forall|i: int|
                0 <= i < deployment_items@.len() ==> {
                    let it = #[trigger] r.deployment_items@[i];
                    it.name == deployment_items@[i] && it.status == ReleaseStatus::InDevelopment
                        && it.logs@.len() == 0 && it.error is None
                },
            r.wf(),
    {
        let mut items: Vec<DeploymentItem> = Vec::new();
        let mut i: usize = 0;
        while i < deployment_items.len()
            invariant
                i <= deployment_items@.len(),
                items@.len() == i,
                forall|k: int|
                    0 <= k < i ==> {
                        let it = #[trigger] items@[k];
                        it.name == deployment_items@[k] && it.status
                            == ReleaseStatus::InDevelopment && it.logs@.len() == 0
                            && it.error is None
                    },
            decreases deployment_items@.len() - i,
        {
            let item = DeploymentItem {
                name: deployment_items[i].clone(),
                status: ReleaseStatus::InDevelopment,
                logs: Vec::new(),
                error: None,
            };
            items.push(item);
            i = i + 1;
        }
        Release {
            id: fresh_id(),
            title,
            client_id,
            current_environment,
            target_environment,
            deployment_items: items,
            created_at: now_millis(),
            scheduled_at,
            status: ReleaseStatus::InDevelopment,
            created_by,
            progress: 0,
            skip_staging,
        }
    }

    /// The aggregate progress derived from the items: the successful share as
    /// a percentage. A release without items keeps its stored progress.
    pub open spec fn spec_calculate_progress(self) -> nat {
        if self.deployment_items@.len() == 0 {
            self.progress as nat
        } else {
            spec_aggregate_progress(self.deployment_items@)
        }
    }

    /// The aggregate progress derived from the items.
    pub fn calculate_progress(&self) -> (r: u32)
        ensures
            r == self.spec_calculate_progress(),
            self.deployment_items@.len() > 0 ==> r <= 100,
            self.wf() ==> r <= 100,
    {
        if self.deployment_items.len() == 0 {
            return self.progress;
        }
        let k = count_success(&self.deployment_items);
        let n = self.deployment_items.len();
        let p: u128 = (100u128 * (k as u128)) / (n as u128);
        proof {
            assert(100 * spec_count_success(self.deployment_items@) <= 100
                * self.deployment_items@.len()) by (nonlinear_arith)
                requires
                    spec_count_success(self.deployment_items@) <= self.deployment_items@.len(),
            ;
            assert((100 * self.deployment_items@.len()) / self.deployment_items@.len() == 100)
                by (nonlinear_arith)
                requires
                    self.deployment_items@.len() > 0,
            ;
            vstd::arithmetic::div_mod::lemma_div_is_ordered(
                100 * spec_count_success(self.deployment_items@) as int,
                100 * self.deployment_items@.len() as int,
                self.deployment_items@.len() as int,
            );
        }
        p as u32
    }

    /// Whether every item has reached a terminal state. A release without
    /// items counts as completed.
    pub open spec fn spec_all_items_completed(self) -> bool {
        forall|i: int|
            0 <= i < self.deployment_items@.len() ==> spec_item_terminal(
                #[trigger] self.deployment_items@[i].status,
            )
    }

    /// Whether every item has reached a terminal state.
    pub fn all_items_completed(&self) -> (r: bool)
        ensures
            r == self.spec_all_items_completed(),
    {
        let mut i: usize = 0;
        while i < self.deployment_items.len()
            invariant
                i <= self.deployment_items@.len(),
                forall|k: int|
                    0 <= k < i ==> spec_item_terminal(
                        #[trigger] self.deployment_items@[k].status,
                    ),
            decreases self.deployment_items@.len() - i,
        {
            if !item_terminal(&self.deployment_items[i].status) {
                return false;
            }
            i = i + 1;
        }
        true
    }

    /// Whether any item ended in error.
    pub open spec fn spec_has_errors(self) -> bool {
        exists|i: int|
            0 <= i < self.deployment_items@.len() && (#[trigger] self.deployment_items@[i].status)
                == ReleaseStatus::Error
    }

    /// Whether any item ended in error.
    pub fn has_errors(&self) -> (r: bool)
        ensures
            r == self.spec_has_errors(),
    {
        let mut i: usize = 0;
        while i < self.deployment_items.len()
            invariant
                i <= self.deployment_items@.len(),
                forall|k: int|
                    0 <= k < i ==> (#[trigger] self.deployment_items@[k].status)
                        != ReleaseStatus::Error,
            decreases self.deployment_items@.len() - i,
        {
            let is_err = match self.deployment_items[i].status {
                ReleaseStatus::Error => true,
                _ => false,
            };
            if is_err {
                return true;
            }
            i = i + 1;
        }
        false
    }

    /// The board column this release is shown in: the column of its status,
    /// except that a release in `Error` or `Blocked` stays in its stored
    /// environment.
    pub open spec fn spec_current_board_column(self) -> Environment {
        match self.status {
            ReleaseStatus::Error | ReleaseStatus::Blocked => self.current_environment,
            _ => self.status.spec_environment(),
        }
    }

    /// The board column this release is shown in.
    pub fn current_board_column(&self) -> (r: Environment)
        ensures
            r == self.spec_current_board_column(),
    {
        match self.status {
            ReleaseStatus::Error | ReleaseStatus::Blocked => self.current_environment,
            _ => self.status.environment(),
        }
    }

    /// Whether the scheduler should pick this release up.
    pub fn should_process(&self) -> (r: bool)
        ensures
            r == self.status.spec_should_process(),
    {
        match self.status {
            ReleaseStatus::WaitingForStaging
            | ReleaseStatus::WaitingForProduction
            | ReleaseStatus::WaitingForProductionFromStaging
            | ReleaseStatus::DeployingToStaging
            | ReleaseStatus::DeployingToProduction => true,
            _ => false,
        }
    }

    /// The status this release reaches when its deployment succeeds.
    pub fn next_status_after_deployment(&self) -> (r: ReleaseStatus)
        ensures
            r == self.status.spec_next_status_after_deployment(),
    {
        match self.status {
            ReleaseStatus::WaitingForStaging | ReleaseStatus::DeployingToStaging =>
                ReleaseStatus::ReadyToTestInStaging,
            ReleaseStatus::WaitingForProduction
            | ReleaseStatus::WaitingForProductionFromStaging
            | ReleaseStatus::DeployingToProduction => ReleaseStatus::ReadyToTestInProduction,
            _ => self.status,
        }
    }

    /// The status a failed deployment leaves the release in.
    pub fn error_status(&self) -> (r: ReleaseStatus)
        ensures
            r == ReleaseStatus::Error,
    {
        ReleaseStatus::Error
    }

    /// Whether an operator may clear this release now.
    pub fn can_be_cleared(&self) -> (r: bool)
        ensures
            r == self.status.spec_can_be_cleared(),
    {
        match self.status {
            ReleaseStatus::InDevelopment
            | ReleaseStatus::ReadyToTestInStaging
            | ReleaseStatus::ReadyToTestInProduction => true,
            _ => false,
        }
    }

    /// The status this release enters when cleared, honouring its
    /// skip-staging flag; `None` when it is not clearable.
    pub fn next_status_when_cleared(&self) -> (r: Option<ReleaseStatus>)
        ensures
            r == self.status.spec_next_status_when_cleared(self.skip_staging),
    {
        self.status.next_status_when_cleared(self.skip_staging)
    }
}

} // verus!
