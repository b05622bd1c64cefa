//! The request-level decisions of the API: validating and building a new
//! release, merging an update into an existing one, applying a status update,
//! and the client records. The HTTP layer around these functions only decodes
//! requests, hands them in together with the current store contents, and maps
//! the results to responses.

use vstd::prelude::*;
use crate::ids::fresh_id;
use crate::release::{DeploymentItem, Release};
use crate::status::{
    parse_environment, spec_parse_environment, spec_parse_release_status, parse_release_status,
    Environment, ReleaseStatus,
};
use crate::text::str_eq;

verus! {

/// A customer whose releases move through the pipeline.
#[derive(Clone, Debug)]
pub struct Client {
    pub id: String,
    pub name: String,
}

/// The decoded body of a release creation or update request. Environments
/// arrive as strings and are parsed, never defaulted; the schedule is
/// milliseconds since the Unix epoch.
#[derive(Clone, Debug)]
pub struct CreateReleaseRequest {
    pub title: String,
    pub client_id: String,
    pub current_environment: String,
    pub target_environment: String,
    pub deployment_items: Vec<String>,
    pub scheduled_at: i64,
    pub skip_staging: bool,
}

/// The decoded body of a client creation request.
#[derive(Clone, Debug)]
pub struct CreateClientRequest {
    pub name: String,
}

/// The query parameters of an OAuth callback: the authorization code and the
/// state echoed back for CSRF checking.
#[derive(Clone, Debug)]
pub struct AuthCallback {
    pub code: String,
    pub state: String,
}

impl AuthCallback {
    /// Whether the echoed state matches the CSRF token the login set; a
    /// callback whose state differs is rejected.
    pub fn state_matches(&self, csrf_token: &str) -> (r: bool)
        ensures
            r == (self.state@ == csrf_token@),
    {
        str_eq(self.state.as_str(), csrf_token)
    }
}

/// Why a release request was rejected. Every rejection is synchronous and
/// never retried.
#[derive(Clone, Debug)]
pub enum CreateReleaseError {
    /// An environment string did not name an environment; carries the
    /// message naming it.
    InvalidEnvironment(String),
    /// The environment pair is not a legal deployment path.
    InvalidPath,
    /// The client already has an active release in the pipeline.
    ClientHasActiveRelease,
    /// Two deployment items share a name.
    DuplicateItemName,
}

/// Why a status update was rejected.
#[derive(Clone, Copy, Debug, PartialEq, Eq, Structural)]
pub enum StatusUpdateError {
    /// A clear was requested but the release is not clearable in its status.
    NotClearable,
    /// The named status is unknown or may not be set directly.
    InvalidStatus,
}

/// The legal deployment paths: development to staging, development straight
/// to production, and staging to production. The skip-staging flag chooses
/// the route a development-to-production release takes, but opens no further
/// paths.
pub open spec fn spec_valid_path(cur: Environment, tgt: Environment) -> bool {
    match (cur, tgt) {
        (Environment::Development, Environment::Staging) => true,
        (Environment::Development, Environment::Production) => true,
        (Environment::Staging, Environment::Production) => true,
        _ => false,
    }
}

/// Whether a deployment path request is legal. The skip-staging flag does not
/// widen or narrow the legal paths.
pub fn validate_deployment_path(cur: Environment, tgt: Environment, skip_staging: bool) -> (r:
    bool)
    ensures
        r == spec_valid_path(cur, tgt),
{
    let _ = skip_staging;
    match (cur, tgt) {
        (Environment::Development, Environment::Staging) => true,
        (Environment::Development, Environment::Production) => true,
        (Environment::Staging, Environment::Production) => true,
        _ => false,
    }
}

/// A non-terminal release blocks its client from creating another: every
/// status except completion counts as active. A release in `Error` or
/// `Blocked` does not block, since operators recover from a failed deployment
/// by creating a new release.
pub open spec fn spec_is_active(s: ReleaseStatus) -> bool {
    s != ReleaseStatus::ClearedInProduction && s != ReleaseStatus::Error && s
        != ReleaseStatus::Blocked
}

/// Whether some release of the client is still active.
pub open spec fn spec_client_has_active(rs: Seq<Release>, client: Seq<char>) -> bool {
    exists|i: int|
        0 <= i < rs.len() && (#[trigger] rs[i]).client_id@ == client && spec_is_active(rs[i].status)
}

/// Whether the client already has an active release among `releases`; a
/// client may have at most one in the pipeline at a time.
pub fn client_has_active_release(releases: &Vec<Release>, client_id: &str) -> (r: bool)
    ensures
        r == spec_client_has_active(releases@, client_id@),
{
    let mut i: usize = 0;
    while i < releases.len()
        invariant
            i <= releases@.len(),
            forall|k: int|
                0 <= k < i ==> !((#[trigger] releases@[k]).client_id@ == client_id@
                    && spec_is_active(releases@[k].status)),
        decreases releases@.len() - i,
    {
        let active = match releases[i].status {
            ReleaseStatus::ClearedInProduction | ReleaseStatus::Error | ReleaseStatus::Blocked =>
                false,
            _ => true,
        };
        if active && str_eq(releases[i].client_id.as_str(), client_id) {
            return true;
        }
        i = i + 1;
    }
    false
}

/// No two of the names coincide.
pub open spec fn spec_names_unique(names: Seq<String>) -> bool {
    forall|i: int, j: int| 0 <= i < j < names.len() ==> names[i]@ != names[j]@
}

/// Whether the item names are pairwise distinct.
pub fn names_unique(names: &Vec<String>) -> (r: bool)
    ensures
        r == spec_names_unique(names@),
{
    let mut i: usize = 0;
    while i < names.len()
        invariant
            i <= names@.len(),
            forall|a: int, b: int| 0 <= a < b < i ==> names@[a]@ != names@[b]@,
        decreases names@.len() - i,
    {
        let mut j: usize = 0;
        while j < i
            invariant
                j <= i < names@.len(),
                forall|a: int, b: int| 0 <= a < b < i ==> names@[a]@ != names@[b]@,
                forall|a: int| 0 <= a < j ==> names@[a]@ != names@[i as int]@,
            decreases i - j,
        {
            if str_eq(names[j].as_str(), names[i].as_str()) {
                return false;
            }
            j = j + 1;
        }
        i = i + 1;
    }
    true
}

/// Validates a creation request against the current releases and builds the
/// release. The checks run in order: the current environment string, the
/// target environment string, the deployment path, the one-active-release
/// rule for the client, and the uniqueness of the item names; the first
/// failure is the error. The release starts in development with progress
/// zero.
pub fn create_release(request: &CreateReleaseRequest, existing: &Vec<Release>, created_by: String) -> (r:
    Result<Release, CreateReleaseError>)
    ensures
        match r {
            Ok(rel) => {
                &&& spec_parse_environment(request.current_environment@) == Some(
                    rel.current_environment,
                )
                &&& spec_parse_environment(request.target_environment@) == Some(
                    rel.target_environment,
                )
                &&& spec_valid_path(rel.current_environment, rel.target_environment)
                &&& !spec_client_has_active(existing@, request.client_id@)
                &&& spec_names_unique(request.deployment_items@)
                &&& rel.title == request.title
                &&& rel.client_id == request.client_id
                &&& rel.scheduled_at == request.scheduled_at
                &&& rel.skip_staging == request.skip_staging
                &&& rel.created_by == created_by
                &&& rel.status == ReleaseStatus::InDevelopment
                &&& rel.progress == 0
                &&& rel.id@.len() == 36
                &&& rel.deployment_items@.len() == request.deployment_items@.len()
                &&& forall|i: int|
                    0 <= i < request.deployment_items@.len() ==> {
                        let it = #[trigger] rel.deployment_items@[i];
                        it.name == request.deployment_items@[i] && it.status
                            == ReleaseStatus::InDevelopment && it.logs@.len() == 0
                            && it.error is None
                    }
                &&& rel.wf()
            },
            Err(e) => match e {
                CreateReleaseError::InvalidEnvironment(msg) => if spec_parse_environment(
                    request.current_environment@,
                ) is None {
                    msg@ == "Invalid environment: "@ + request.current_environment@
                } else {
                    &&& spec_parse_environment(request.target_environment@) is None
                    &&& msg@ == "Invalid environment: "@ + request.target_environment@
                },
                CreateReleaseError::InvalidPath => {
                    &&& spec_parse_environment(request.current_environment@) is Some
                    &&& spec_parse_environment(request.target_environment@) is Some
                    &&& !spec_valid_path(
                        spec_parse_environment(request.current_environment@)->Some_0,
                        spec_parse_environment(request.target_environment@)->Some_0,
                    )
                },
                CreateReleaseError::ClientHasActiveRelease => {
                    &&& spec_parse_environment(request.current_environment@) is Some
                    &&& spec_parse_environment(request.target_environment@) is Some
                    &&& spec_valid_path(
                        spec_parse_environment(request.current_environment@)->Some_0,
                        spec_parse_environment(request.target_environment@)->Some_0,
                    )
                    &&& spec_client_has_active(existing@, request.client_id@)
                },
                CreateReleaseError::DuplicateItemName => {
                    &&& spec_parse_environment(request.current_environment@) is Some
                    &&& spec_parse_environment(request.target_environment@) is Some
                    &&& spec_valid_path(
                        spec_parse_environment(request.current_environment@)->Some_0,
                        spec_parse_environment(request.target_environment@)->Some_0,
                    )
                    &&& !spec_client_has_active(existing@, request.client_id@)
                    &&& !spec_names_unique(request.deployment_items@)
                },
            },
        },
{
    let cur = match parse_environment(request.current_environment.as_str()) {
        Ok(env) => env,
        Err(msg) => {
            return Err(CreateReleaseError::InvalidEnvironment(msg));
        },
    };
    let tgt = match parse_environment(request.target_environment.as_str()) {
        Ok(env) => env,
        Err(msg) => {
            return Err(CreateReleaseError::InvalidEnvironment(msg));
        },
    };
    if !validate_deployment_path(cur, tgt, request.skip_staging) {
        return Err(CreateReleaseError::InvalidPath);
    }
    if client_has_active_release(existing, request.client_id.as_str()) {
        return Err(CreateReleaseError::ClientHasActiveRelease);
    }
    if !names_unique(&request.deployment_items) {
        return Err(CreateReleaseError::DuplicateItemName);
    }
    Ok(
        Release::new(
            request.title.clone(),
            request.client_id.clone(),
            cur,
            tgt,
            request.deployment_items.clone(),
            request.scheduled_at,
            created_by,
            request.skip_staging,
        ),
    )
}

/// Merges an update request into an existing release. The identity, creation
/// time, creator, status and progress of the release are kept; title, client,
/// environments, schedule and the skip-staging flag are replaced. A request
/// without deployment items keeps the existing items; one with items replaces
/// them with fresh items in development.
pub fn apply_update(existing: Release, request: &CreateReleaseRequest) -> (r: Result<
    Release,
    CreateReleaseError,
>)
    ensures
        match r {
            Ok(rel) => {
                &&& spec_parse_environment(request.current_environment@) == Some(
                    rel.current_environment,
                )
                &&& spec_parse_environment(request.target_environment@) == Some(
                    rel.target_environment,
                )
                &&& rel.id == existing.id
                &&& rel.created_at == existing.created_at
                &&& rel.created_by == existing.created_by
                &&& rel.status == existing.status
                &&& rel.progress == existing.progress
                &&& rel.title == request.title
                &&& rel.client_id == request.client_id
                &&& rel.scheduled_at == request.scheduled_at
                &&& rel.skip_staging == request.skip_staging
                &&& if request.deployment_items@.len() == 0 {
                    rel.deployment_items@ == existing.deployment_items@
                } else {
                    rel.deployment_items@.len() == request.deployment_items@.len() && forall|
                        i: int,
                    |
                        0 <= i < request.deployment_items@.len() ==> {
                            let it = #[trigger] rel.deployment_items@[i];
                            it.name == request.deployment_items@[i] && it.status
                                == ReleaseStatus::InDevelopment && it.logs@.len() == 0
                                && it.error is None
                        }
                }
            },
            Err(e) => match e {
                CreateReleaseError::InvalidEnvironment(msg) => if spec_parse_environment(
                    request.current_environment@,
                ) is None {
                    msg@ == "Invalid environment: "@ + request.current_environment@
                } else {
                    &&& spec_parse_environment(request.target_environment@) is None
                    &&& msg@ == "Invalid environment: "@ + request.target_environment@
                },
                _ => false,
            },
        },
{
    let cur = match parse_environment(request.current_environment.as_str()) {
        Ok(env) => env,
        Err(msg) => {
            return Err(CreateReleaseError::InvalidEnvironment(msg));
        },
    };
    let tgt = match parse_environment(request.target_environment.as_str()) {
        Ok(env) => env,
        Err(msg) => {
            return Err(CreateReleaseError::InvalidEnvironment(msg));
        },
    };
    let deployment_items = if request.deployment_items.len() == 0 {
        existing.deployment_items
    } else {
        let mut items: Vec<DeploymentItem> = Vec::new();
        let mut i: usize = 0;
        while i < request.deployment_items.len()
            invariant
                i <= request.deployment_items@.len(),
                items@.len() == i,
                forall|k: int|
                    0 <= k < i ==> {
                        let it = #[trigger] items@[k];
                        it.name == request.deployment_items@[k] && it.status
                            == ReleaseStatus::InDevelopment && it.logs@.len() == 0
                            && it.error is None
                    },
            decreases request.deployment_items@.len() - i,
        {
            items.push(
                DeploymentItem {
                    name: request.deployment_items[i].clone(),
                    status: ReleaseStatus::InDevelopment,
                    logs: Vec::new(),
                    error: None,
                },
            );
            i = i + 1;
        }
        items
    };
    Ok(
        Release {
            id: existing.id,
            title: request.title.clone(),
            client_id: request.client_id.clone(),
            current_environment: cur,
            target_environment: tgt,
            deployment_items,
            created_at: existing.created_at,
            scheduled_at: request.scheduled_at,
            status: existing.status,
            created_by: existing.created_by,
            progress: existing.progress,
            skip_staging: request.skip_staging,
        },
    )
}

/// Applies a status update named over the wire. The word `clear` performs the
/// operator's clear action through the transition table; any other word must
/// name a directly settable status. The waiting statuses are internal and
/// cannot be named. On rejection the release is untouched.
pub fn apply_status_update(release: &mut Release, status_str: &str) -> (r: Result<
    (),
    StatusUpdateError,
>)
    ensures
        match r {
            Ok(_) => {
                &&& final (release).deployment_items@ == old(release).deployment_items@
                &&& final (release).id == old(release).id
                &&& final (release).title == old(release).title
                &&& final (release).client_id == old(release).client_id
                &&& final (release).current_environment == old(release).current_environment
                &&& final (release).target_environment == old(release).target_environment
                &&& final (release).created_at == old(release).created_at
                &&& final (release).scheduled_at == old(release).scheduled_at
                &&& final (release).created_by == old(release).created_by
                &&& final (release).progress == old(release).progress
                &&& final (release).skip_staging == old(release).skip_staging
                &&& if status_str@ == "clear"@ {
                    old(release).status.spec_next_status_when_cleared(old(release).skip_staging)
                        == Some(final (release).status)
                } else {
                    spec_parse_release_status(status_str@) == Some(final (release).status)
                }
            },
            Err(e) => {
                &&& *final (release) == *old(release)
                &&& match e {
                    StatusUpdateError::NotClearable => status_str@ == "clear"@ && !old(
                        release,
                    ).status.spec_can_be_cleared(),
                    StatusUpdateError::InvalidStatus => status_str@ != "clear"@
                        && spec_parse_release_status(status_str@) is None,
                }
            },
        },
{
    if str_eq(status_str, "clear") {
        match release.next_status_when_cleared() {
            Some(next) => {
                proof {
                    release.status.lemma_clearable_iff_next_exists(release.skip_staging);
                }
                release.status = next;
                Ok(())
            },
            None => {
                proof {
                    release.status.lemma_clearable_iff_next_exists(release.skip_staging);
                }
                Err(StatusUpdateError::NotClearable)
            },
        }
    } else {
        match parse_release_status(status_str) {
            Some(next) => {
                release.status = next;
                Ok(())
            },
            None => Err(StatusUpdateError::InvalidStatus),
        }
    }
}

/// The names of the clients the store is seeded with on first start.
pub open spec fn spec_default_client_names() -> Seq<Seq<char>> {
    seq![
        "Acme Corporation"@,
        "Globex Industries"@,
        "Stark Enterprises"@,
        "Wayne Enterprises"@,
        "Umbrella Corporation"@,
        "Cyberdyne Systems"@,
        "Oscorp Industries"@,
        "Massive Dynamic"@,
        "Soylent Corp"@,
        "Initech"@,
    ]
}

/// A client with a fresh identifier.
pub fn new_client(name: String) -> (r: Client)
    ensures
        r.name == name,
        r.id@.len() == 36,
{
    Client { id: fresh_id(), name }
}

/// The clients the store is seeded with when it holds none yet: one for each
/// default name, each with a fresh identifier.
pub fn default_clients() -> (r: Vec<Client>)
    ensures
        r@.len() == spec_default_client_names().len(),
        forall|i: int|
            0 <= i < r@.len() ==> (#[trigger] r@[i]).name@ == spec_default_client_names()[i]
                && r@[i].id@.len() == 36,
{
    let mut names: Vec<&'static str> = Vec::new();
    names.push("Acme Corporation");
    names.push("Globex Industries");
    names.push("Stark Enterprises");
    names.push("Wayne Enterprises");
    names.push("Umbrella Corporation");
    names.push("Cyberdyne Systems");
    names.push("Oscorp Industries");
    names.push("Massive Dynamic");
    names.push("Soylent Corp");
    names.push("Initech");
    proof {
        assert forall|i: int| 0 <= i < 10 implies (#[trigger] names@[i])@
            == spec_default_client_names()[i] by {
            assert(spec_default_client_names()[i] == names@[i]@);
        }
    }
    let mut r: Vec<Client> = Vec::new();
    let mut i: usize = 0;
    while i < names.len()
        invariant
            i <= names@.len(),
            names@.len() == spec_default_client_names().len(),
            forall|k: int|
                0 <= k < names@.len() ==> (#[trigger] names@[k])@ == spec_default_client_names()[k],
            r@.len() == i,
            forall|k: int|
                0 <= k < i ==> (#[trigger] r@[k]).name@ == spec_default_client_names()[k]
                    && r@[k].id@.len() == 36,
        decreases names@.len() - i,
    {
        let name = String::from_str(names[i]);
        r.push(new_client(name));
        i = i + 1;
    }
    r
}

} // verus!
