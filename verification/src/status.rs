//! The release lifecycle state machine: pipeline environments, release
//! statuses, and the pure transition rules between them.

use vstd::prelude::*;
use crate::text::{chars_eq_str, chars_of, lower_chars, spec_lower};

verus! {

/// One stage of the deployment pipeline. The three stages are totally
/// ordered: Development, then Staging, then Production.
#[derive(Clone, Copy, Debug, PartialEq, Eq, Structural)]
pub enum Environment {
    Development,
    Staging,
    Production,
}

/// The status of a release (or of one of its deployment items) as it moves
/// through the pipeline. Every status except `Error` and `Blocked` belongs to
/// exactly one `Environment`.
#[derive(Clone, Copy, Debug, PartialEq, Eq, Structural)]
pub enum ReleaseStatus {
    InDevelopment,
    ClearedInDevelopment,
    WaitingForStaging,
    WaitingForProduction,
    DeployingToStaging,
    ReadyToTestInStaging,
    ClearedInStaging,
    WaitingForProductionFromStaging,
    DeployingToProduction,
    ReadyToTestInProduction,
    ClearedInProduction,
    Error,
    Blocked,
}

impl ReleaseStatus {
    /// The board column a status belongs to. `Error` and `Blocked` carry no
    /// environment of their own and map to `Development` here; a release in
    /// those statuses keeps its stored environment instead (see
    /// `Release::current_board_column`).
    pub open spec fn spec_environment(self) -> Environment {
        match self {
            ReleaseStatus::InDevelopment
            | ReleaseStatus::ClearedInDevelopment
            | ReleaseStatus::WaitingForStaging
            | ReleaseStatus::WaitingForProduction => Environment::Development,
            ReleaseStatus::DeployingToStaging
            | ReleaseStatus::ReadyToTestInStaging
            | ReleaseStatus::ClearedInStaging
            | ReleaseStatus::WaitingForProductionFromStaging => Environment::Staging,
            ReleaseStatus::DeployingToProduction
            | ReleaseStatus::ReadyToTestInProduction
            | ReleaseStatus::ClearedInProduction => Environment::Production,
            ReleaseStatus::Error | ReleaseStatus::Blocked => Environment::Development,
        }
    }

    /// The board column a status belongs to.
    pub fn environment(&self) -> (env: Environment)
        ensures
            env == self.spec_environment(),
    {
        match self {
            ReleaseStatus::InDevelopment
            | ReleaseStatus::ClearedInDevelopment
            | ReleaseStatus::WaitingForStaging
            | ReleaseStatus::WaitingForProduction => Environment::Development,
            ReleaseStatus::DeployingToStaging
            | ReleaseStatus::ReadyToTestInStaging
            | ReleaseStatus::ClearedInStaging
            | ReleaseStatus::WaitingForProductionFromStaging => Environment::Staging,
            ReleaseStatus::DeployingToProduction
            | ReleaseStatus::ReadyToTestInProduction
            | ReleaseStatus::ClearedInProduction => Environment::Production,
            ReleaseStatus::Error | ReleaseStatus::Blocked => Environment::Development,
        }
    }

    /// The environment mapping is total: every status maps to one of the
    /// three pipeline stages, as a function of the status alone. Only a
    /// release in `Error` or `Blocked` shows its stored environment instead
    /// (see `Release::current_board_column`).
    pub proof fn lemma_environment_total(self)
        ensures
            self.spec_environment() == Environment::Development || self.spec_environment()
                == Environment::Staging || self.spec_environment() == Environment::Production,
    {
    }

    /// The status a release enters when an operator clears it: `None` when the
    /// release is not clearable in this status. From development the release
    /// waits for staging, or directly for production when staging is skipped.
    pub open spec fn spec_next_status_when_cleared(self, skip_staging: bool) -> Option<
        ReleaseStatus,
    > {
        match self {
            ReleaseStatus::InDevelopment => if skip_staging {
                Some(ReleaseStatus::WaitingForProduction)
            } else {
                Some(ReleaseStatus::WaitingForStaging)
            },
            ReleaseStatus::ReadyToTestInStaging => Some(
                ReleaseStatus::WaitingForProductionFromStaging,
            ),
            ReleaseStatus::ReadyToTestInProduction => Some(ReleaseStatus::ClearedInProduction),
            _ => None,
        }
    }

    /// The status a release enters when an operator clears it.
    pub fn next_status_when_cleared(&self, skip_staging: bool) -> (r: Option<ReleaseStatus>)
        ensures
            r == self.spec_next_status_when_cleared(skip_staging),
    {
        match self {
            ReleaseStatus::InDevelopment => if skip_staging {
                Some(ReleaseStatus::WaitingForProduction)
            } else {
                Some(ReleaseStatus::WaitingForStaging)
            },
            ReleaseStatus::ReadyToTestInStaging => Some(
                ReleaseStatus::WaitingForProductionFromStaging,
            ),
            ReleaseStatus::ReadyToTestInProduction => Some(ReleaseStatus::ClearedInProduction),
            _ => None,
        }
    }

    /// A release is clearable exactly in `InDevelopment`, `ReadyToTestInStaging`
    /// and `ReadyToTestInProduction`.
    pub open spec fn spec_can_be_cleared(self) -> bool {
        self == ReleaseStatus::InDevelopment || self == ReleaseStatus::ReadyToTestInStaging
            || self == ReleaseStatus::ReadyToTestInProduction
    }

    /// Whatever the skip-staging flag, a status is clearable exactly when
    /// clearing it yields a next status.
    pub proof fn lemma_clearable_iff_next_exists(self, skip_staging: bool)
        ensures
            self.spec_can_be_cleared() <==> self.spec_next_status_when_cleared(
                skip_staging,
            ) is Some,
    {
    }

    /// The statuses the scheduler picks up: a release waiting for, or already
    /// in, a deployment.
    pub open spec fn spec_should_process(self) -> bool {
        match self {
            ReleaseStatus::WaitingForStaging
            | ReleaseStatus::WaitingForProduction
            | ReleaseStatus::WaitingForProductionFromStaging
            | ReleaseStatus::DeployingToStaging
            | ReleaseStatus::DeployingToProduction => true,
            _ => false,
        }
    }

    /// The status a deployment runs under: a waiting status is promoted to the
    /// corresponding deploying status; any other status is kept.
    pub open spec fn spec_deploying_status(self) -> ReleaseStatus {
        match self {
            ReleaseStatus::WaitingForStaging => ReleaseStatus::DeployingToStaging,
            ReleaseStatus::WaitingForProduction | ReleaseStatus::WaitingForProductionFromStaging =>
                ReleaseStatus::DeployingToProduction,
            _ => self,
        }
    }

    /// The status a release (or item) reaches when its deployment succeeds:
    /// ready to test in the environment it was deploying to; any status
    /// outside a deployment is kept.
    pub open spec fn spec_next_status_after_deployment(self) -> ReleaseStatus {
        match self {
            ReleaseStatus::WaitingForStaging | ReleaseStatus::DeployingToStaging =>
                ReleaseStatus::ReadyToTestInStaging,
            ReleaseStatus::WaitingForProduction
            | ReleaseStatus::WaitingForProductionFromStaging
            | ReleaseStatus::DeployingToProduction => ReleaseStatus::ReadyToTestInProduction,
            _ => self,
        }
    }

    /// The name of the environment a processable release deploys to, handed to
    /// the deployment scripts; `None` when the status is not processable.
    pub open spec fn spec_deploy_environment_name(self) -> Option<Seq<char>> {
        match self {
            ReleaseStatus::WaitingForStaging | ReleaseStatus::DeployingToStaging => Some(
                "staging"@,
            ),
            ReleaseStatus::WaitingForProduction
            | ReleaseStatus::WaitingForProductionFromStaging
            | ReleaseStatus::DeployingToProduction => Some("production"@),
            _ => None,
        }
    }

    /// The name of the environment a processable release deploys to.
    pub fn deploy_environment_name(&self) -> (r: Option<&'static str>)
        ensures
            match r {
                Some(s) => Some(s@) == self.spec_deploy_environment_name(),
                None => self.spec_deploy_environment_name() is None,
            },
    {
        match self {
            ReleaseStatus::WaitingForStaging | ReleaseStatus::DeployingToStaging => Some("staging"),
            ReleaseStatus::WaitingForProduction
            | ReleaseStatus::WaitingForProductionFromStaging
            | ReleaseStatus::DeployingToProduction => Some("production"),
            _ => None,
        }
    }

    /// The human-readable name of a status, as shown on a release card.
    pub open spec fn spec_display_name(self) -> Seq<char> {
        match self {
            ReleaseStatus::InDevelopment => "In Development"@,
            ReleaseStatus::ClearedInDevelopment => "Cleared for Staging"@,
            ReleaseStatus::WaitingForStaging => "Waiting for Staging"@,
            ReleaseStatus::WaitingForProduction => "Waiting for Production"@,
            ReleaseStatus::DeployingToStaging => "Deploying to Staging"@,
            ReleaseStatus::ReadyToTestInStaging => "Ready to Test in Staging"@,
            ReleaseStatus::ClearedInStaging => "Cleared for Production"@,
            ReleaseStatus::WaitingForProductionFromStaging => "Waiting for Production"@,
            ReleaseStatus::DeployingToProduction => "Deploying to Production"@,
            ReleaseStatus::ReadyToTestInProduction => "Ready to Test in Production"@,
            ReleaseStatus::ClearedInProduction => "Completed"@,
            ReleaseStatus::Error => "Error"@,
            ReleaseStatus::Blocked => "Blocked"@,
        }
    }

    /// The human-readable name of a status.
    pub fn display_name(&self) -> (r: &'static str)
        ensures
            r@ == self.spec_display_name(),
    {
        match self {
            ReleaseStatus::InDevelopment => "In Development",
            ReleaseStatus::ClearedInDevelopment => "Cleared for Staging",
            ReleaseStatus::WaitingForStaging => "Waiting for Staging",
            ReleaseStatus::WaitingForProduction => "Waiting for Production",
            ReleaseStatus::DeployingToStaging => "Deploying to Staging",
            ReleaseStatus::ReadyToTestInStaging => "Ready to Test in Staging",
            ReleaseStatus::ClearedInStaging => "Cleared for Production",
            ReleaseStatus::WaitingForProductionFromStaging => "Waiting for Production",
            ReleaseStatus::DeployingToProduction => "Deploying to Production",
            ReleaseStatus::ReadyToTestInProduction => "Ready to Test in Production",
            ReleaseStatus::ClearedInProduction => "Completed",
            ReleaseStatus::Error => "Error",
            ReleaseStatus::Blocked => "Blocked",
        }
    }

    /// The style class a status is rendered with.
    pub open spec fn spec_css_class(self) -> Seq<char> {
        match self {
            ReleaseStatus::InDevelopment => "status-in-development"@,
            ReleaseStatus::ClearedInDevelopment => "status-cleared"@,
            ReleaseStatus::WaitingForStaging => "status-waiting"@,
            ReleaseStatus::WaitingForProduction => "status-waiting"@,
            ReleaseStatus::DeployingToStaging => "status-deploying status-deploying-to-staging"@,
            ReleaseStatus::ReadyToTestInStaging => "status-ready"@,
            ReleaseStatus::ClearedInStaging => "status-cleared"@,
            ReleaseStatus::WaitingForProductionFromStaging => "status-waiting"@,
            ReleaseStatus::DeployingToProduction => (
            "status-deploying status-deploying-to-production"@),
            ReleaseStatus::ReadyToTestInProduction => "status-ready"@,
            ReleaseStatus::ClearedInProduction => "status-completed"@,
            ReleaseStatus::Error => "status-error"@,
            ReleaseStatus::Blocked => "status-blocked"@,
        }
    }

    /// The style class a status is rendered with.
    pub fn css_class(&self) -> (r: &'static str)
        ensures
            r@ == self.spec_css_class(),
    {
        match self {
            ReleaseStatus::InDevelopment => "status-in-development",
            ReleaseStatus::ClearedInDevelopment => "status-cleared",
            ReleaseStatus::WaitingForStaging => "status-waiting",
            ReleaseStatus::WaitingForProduction => "status-waiting",
            ReleaseStatus::DeployingToStaging => "status-deploying status-deploying-to-staging",
            ReleaseStatus::ReadyToTestInStaging => "status-ready",
            ReleaseStatus::ClearedInStaging => "status-cleared",
            ReleaseStatus::WaitingForProductionFromStaging => "status-waiting",
            ReleaseStatus::DeployingToProduction => "status-deploying status-deploying-to-production",
            ReleaseStatus::ReadyToTestInProduction => "status-ready",
            ReleaseStatus::ClearedInProduction => "status-completed",
            ReleaseStatus::Error => "status-error",
            ReleaseStatus::Blocked => "status-blocked",
        }
    }

    /// The wire name of a status, as carried in a direct status update.
    pub open spec fn spec_wire_name(self) -> Seq<char> {
        match self {
            ReleaseStatus::InDevelopment => "InDevelopment"@,
            ReleaseStatus::ClearedInDevelopment => "ClearedInDevelopment"@,
            ReleaseStatus::WaitingForStaging => "WaitingForStaging"@,
            ReleaseStatus::WaitingForProduction => "WaitingForProduction"@,
            ReleaseStatus::DeployingToStaging => "DeployingToStaging"@,
            ReleaseStatus::ReadyToTestInStaging => "ReadyToTestInStaging"@,
            ReleaseStatus::ClearedInStaging => "ClearedInStaging"@,
            ReleaseStatus::WaitingForProductionFromStaging => "WaitingForProductionFromStaging"@,
            ReleaseStatus::DeployingToProduction => "DeployingToProduction"@,
            ReleaseStatus::ReadyToTestInProduction => "ReadyToTestInProduction"@,
            ReleaseStatus::ClearedInProduction => "ClearedInProduction"@,
            ReleaseStatus::Error => "Error"@,
            ReleaseStatus::Blocked => "Blocked"@,
        }
    }

    /// The wire name of a status.
    pub fn wire_name(&self) -> (r: &'static str)
        ensures
            r@ == self.spec_wire_name(),
    {
        match self {
            ReleaseStatus::InDevelopment => "InDevelopment",
            ReleaseStatus::ClearedInDevelopment => "ClearedInDevelopment",
            ReleaseStatus::WaitingForStaging => "WaitingForStaging",
            ReleaseStatus::WaitingForProduction => "WaitingForProduction",
            ReleaseStatus::DeployingToStaging => "DeployingToStaging",
            ReleaseStatus::ReadyToTestInStaging => "ReadyToTestInStaging",
            ReleaseStatus::ClearedInStaging => "ClearedInStaging",
            ReleaseStatus::WaitingForProductionFromStaging => "WaitingForProductionFromStaging",
            ReleaseStatus::DeployingToProduction => "DeployingToProduction",
            ReleaseStatus::ReadyToTestInProduction => "ReadyToTestInProduction",
            ReleaseStatus::ClearedInProduction => "ClearedInProduction",
            ReleaseStatus::Error => "Error",
            ReleaseStatus::Blocked => "Blocked",
        }
    }
}

/// The statuses a direct status update may name. The waiting statuses are
/// internal to the scheduler and cannot be set over the wire.
pub open spec fn spec_parse_release_status(s: Seq<char>) -> Option<ReleaseStatus> {
    if s == "InDevelopment"@ {
        Some(ReleaseStatus::InDevelopment)
    } else if s == "ClearedInDevelopment"@ {
        Some(ReleaseStatus::ClearedInDevelopment)
    } else if s == "DeployingToStaging"@ {
        Some(ReleaseStatus::DeployingToStaging)
    } else if s == "ReadyToTestInStaging"@ {
        Some(ReleaseStatus::ReadyToTestInStaging)
    } else if s == "ClearedInStaging"@ {
        Some(ReleaseStatus::ClearedInStaging)
    } else if s == "DeployingToProduction"@ {
        Some(ReleaseStatus::DeployingToProduction)
    } else if s == "ReadyToTestInProduction"@ {
        Some(ReleaseStatus::ReadyToTestInProduction)
    } else if s == "ClearedInProduction"@ {
        Some(ReleaseStatus::ClearedInProduction)
    } else if s == "Error"@ {
        Some(ReleaseStatus::Error)
    } else if s == "Blocked"@ {
        Some(ReleaseStatus::Blocked)
    } else {
        None
    }
}

/// Parses a status name from a direct status update; unknown names are
/// rejected, not defaulted.
pub fn parse_release_status(s: &str) -> (r: Option<ReleaseStatus>)
    ensures
        r == spec_parse_release_status(s@),
{
    let v = chars_of(s);
    if chars_eq_str(&v, "InDevelopment") {
        Some(ReleaseStatus::InDevelopment)
    } else if chars_eq_str(&v, "ClearedInDevelopment") {
        Some(ReleaseStatus::ClearedInDevelopment)
    } else if chars_eq_str(&v, "DeployingToStaging") {
        Some(ReleaseStatus::DeployingToStaging)
    } else if chars_eq_str(&v, "ReadyToTestInStaging") {
        Some(ReleaseStatus::ReadyToTestInStaging)
    } else if chars_eq_str(&v, "ClearedInStaging") {
        Some(ReleaseStatus::ClearedInStaging)
    } else if chars_eq_str(&v, "DeployingToProduction") {
        Some(ReleaseStatus::DeployingToProduction)
    } else if chars_eq_str(&v, "ReadyToTestInProduction") {
        Some(ReleaseStatus::ReadyToTestInProduction)
    } else if chars_eq_str(&v, "ClearedInProduction") {
        Some(ReleaseStatus::ClearedInProduction)
    } else if chars_eq_str(&v, "Error") {
        Some(ReleaseStatus::Error)
    } else if chars_eq_str(&v, "Blocked") {
        Some(ReleaseStatus::Blocked)
    } else {
        None
    }
}

/// Environment names are matched case-insensitively over the ASCII range.
pub open spec fn spec_parse_environment(s: Seq<char>) -> Option<Environment> {
    let l = spec_lower(s);
    if l == "development"@ {
        Some(Environment::Development)
    } else if l == "staging"@ {
        Some(Environment::Staging)
    } else if l == "production"@ {
        Some(Environment::Production)
    } else {
        None
    }
}

/// Parses an environment name, case-insensitively; an unknown name is
/// rejected with a message naming it, never silently corrected.
pub fn parse_environment(s: &str) -> (r: Result<Environment, String>)
    ensures
        match r {
            Ok(env) => spec_parse_environment(s@) == Some(env),
            Err(msg) => spec_parse_environment(s@) is None && msg@ == "Invalid environment: "@
                + s@,
        },
{
    let v = chars_of(s);
    let l = lower_chars(&v);
    if chars_eq_str(&l, "development") {
        Ok(Environment::Development)
    } else if chars_eq_str(&l, "staging") {
        Ok(Environment::Staging)
    } else if chars_eq_str(&l, "production") {
        Ok(Environment::Production)
    } else {
        Err(String::from_str("Invalid environment: ").concat(s))
    }
}

} // verus!
