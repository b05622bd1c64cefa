use release_manager::api::{
    apply_status_update, apply_update, client_has_active_release, create_release,
    default_clients, names_unique, new_client, validate_deployment_path,
};
use release_manager::{
    CreateReleaseError, CreateReleaseRequest, Environment, Release, ReleaseStatus,
    StatusUpdateError,
};

fn request(cur: &str, tgt: &str, skip: bool) -> CreateReleaseRequest {
    CreateReleaseRequest {
        title: "Spring release".to_string(),
        client_id: "client-1".to_string(),
        current_environment: cur.to_string(),
        target_environment: tgt.to_string(),
        deployment_items: vec!["data".to_string(), "solr".to_string()],
        scheduled_at: 1_700_000_000_000,
        skip_staging: skip,
    }
}

#[test]
fn deployment_path_table() {
    let dev = Environment::Development;
    let stg = Environment::Staging;
    let prd = Environment::Production;
    assert!(validate_deployment_path(dev, stg, false));
    assert!(validate_deployment_path(dev, prd, false));
    assert!(validate_deployment_path(dev, prd, true));
    assert!(validate_deployment_path(stg, prd, false));
    assert!(validate_deployment_path(stg, prd, true));
    assert!(!validate_deployment_path(stg, stg, false));
    assert!(!validate_deployment_path(stg, stg, true));
    assert!(!validate_deployment_path(prd, dev, false));
    assert!(!validate_deployment_path(prd, dev, true));
    assert!(!validate_deployment_path(dev, dev, false));
    assert!(!validate_deployment_path(stg, dev, false));
    assert!(!validate_deployment_path(prd, prd, false));
}

#[test]
fn create_release_builds_a_fresh_release() {
    let rel = create_release(&request("development", "staging", false), &vec![], "alice".to_string())
        .expect("a valid request must be accepted");
    assert_eq!(rel.status, ReleaseStatus::InDevelopment);
    assert_eq!(rel.progress, 0);
    assert_eq!(rel.current_environment, Environment::Development);
    assert_eq!(rel.target_environment, Environment::Staging);
    assert_eq!(rel.created_by, "alice");
    assert_eq!(rel.id.len(), 36);
    assert_eq!(rel.deployment_items.len(), 2);
    assert_eq!(rel.deployment_items[0].name, "data");
    assert_eq!(rel.deployment_items[1].name, "solr");
    for item in &rel.deployment_items {
        assert_eq!(item.status, ReleaseStatus::InDevelopment);
        assert!(item.logs.is_empty());
        assert!(item.error.is_none());
    }
}

#[test]
fn create_release_rejects_bad_environments() {
    match create_release(&request("qa", "staging", false), &vec![], "alice".to_string()) {
        Err(CreateReleaseError::InvalidEnvironment(msg)) => {
            assert_eq!(msg, "Invalid environment: qa");
        }
        other => panic!("expected an environment rejection, got {:?}", other),
    }
    match create_release(&request("development", "prod", false), &vec![], "alice".to_string()) {
        Err(CreateReleaseError::InvalidEnvironment(msg)) => {
            assert_eq!(msg, "Invalid environment: prod");
        }
        other => panic!("expected an environment rejection, got {:?}", other),
    }
}

#[test]
fn create_release_rejects_illegal_paths() {
    assert!(matches!(
        create_release(&request("staging", "development", false), &vec![], "alice".to_string()),
        Err(CreateReleaseError::InvalidPath)
    ));
    assert!(matches!(
        create_release(&request("production", "development", true), &vec![], "alice".to_string()),
        Err(CreateReleaseError::InvalidPath)
    ));
}

#[test]
fn create_release_rejects_a_second_active_release() {
    let first = create_release(&request("development", "staging", false), &vec![], "alice".to_string())
        .expect("first release");
    let existing = vec![first];
    assert!(client_has_active_release(&existing, "client-1"));
    assert!(matches!(
        create_release(&request("development", "staging", false), &existing, "alice".to_string()),
        Err(CreateReleaseError::ClientHasActiveRelease)
    ));
}

#[test]
fn a_terminal_release_does_not_block_its_client() {
    let rel = create_release(&request("development", "staging", false), &vec![], "alice".to_string())
        .expect("release");
    // Completion, error and blocked are the only statuses that free the
    // client: operators recover from a failure by creating a new release.
    for status in [
        ReleaseStatus::ClearedInProduction,
        ReleaseStatus::Error,
        ReleaseStatus::Blocked,
    ] {
        let mut done = rel.clone();
        done.status = status;
        assert!(!client_has_active_release(&vec![done.clone()], "client-1"));
        assert!(create_release(
            &request("development", "staging", false),
            &vec![done],
            "alice".to_string()
        )
        .is_ok());
    }
}

#[test]
fn every_non_terminal_release_blocks_its_client() {
    let rel = create_release(&request("development", "staging", false), &vec![], "alice".to_string())
        .expect("release");
    for status in [
        ReleaseStatus::InDevelopment,
        ReleaseStatus::ClearedInDevelopment,
        ReleaseStatus::WaitingForStaging,
        ReleaseStatus::WaitingForProduction,
        ReleaseStatus::DeployingToStaging,
        ReleaseStatus::ReadyToTestInStaging,
        ReleaseStatus::ClearedInStaging,
        ReleaseStatus::WaitingForProductionFromStaging,
        ReleaseStatus::DeployingToProduction,
        ReleaseStatus::ReadyToTestInProduction,
    ] {
        let mut active = rel.clone();
        active.status = status;
        assert!(client_has_active_release(&vec![active.clone()], "client-1"));
        assert!(matches!(
            create_release(
                &request("development", "staging", false),
                &vec![active],
                "alice".to_string()
            ),
            Err(CreateReleaseError::ClientHasActiveRelease)
        ));
    }
}

#[test]
fn create_release_rejects_duplicate_item_names() {
    let mut req = request("development", "staging", false);
    req.deployment_items = vec!["data".to_string(), "data".to_string()];
    assert!(!names_unique(&req.deployment_items));
    assert!(matches!(
        create_release(&req, &vec![], "alice".to_string()),
        Err(CreateReleaseError::DuplicateItemName)
    ));
}

#[test]
fn update_keeps_identity_and_lifecycle_fields() {
    let rel = create_release(&request("development", "staging", false), &vec![], "alice".to_string())
        .expect("release");
    let id = rel.id.clone();
    let created_at = rel.created_at;

    let mut req = request("development", "production", true);
    req.title = "Renamed".to_string();
    req.deployment_items = vec![];
    let updated = apply_update(rel, &req).expect("update");
    assert_eq!(updated.id, id);
    assert_eq!(updated.created_at, created_at);
    assert_eq!(updated.created_by, "alice");
    assert_eq!(updated.title, "Renamed");
    assert_eq!(updated.target_environment, Environment::Production);
    assert!(updated.skip_staging);
    // An update without items keeps the existing ones.
    assert_eq!(updated.deployment_items.len(), 2);
    assert_eq!(updated.deployment_items[0].name, "data");
}

#[test]
fn another_clients_release_never_blocks() {
    let rel = create_release(&request("development", "staging", false), &vec![], "alice".to_string())
        .expect("release");
    assert!(!client_has_active_release(&vec![rel], "client-2"));
}

#[test]
fn update_rejects_bad_environments_with_the_offending_name() {
    let rel = create_release(&request("development", "staging", false), &vec![], "alice".to_string())
        .expect("release");
    match apply_update(rel, &request("development", "prod", false)) {
        Err(CreateReleaseError::InvalidEnvironment(msg)) => {
            assert_eq!(msg, "Invalid environment: prod");
        }
        other => panic!("expected an environment rejection, got {:?}", other),
    }
}

#[test]
fn update_with_items_replaces_them_fresh() {
    let rel = create_release(&request("development", "staging", false), &vec![], "alice".to_string())
        .expect("release");
    let mut req = request("development", "staging", false);
    req.deployment_items = vec!["app".to_string()];
    let updated = apply_update(rel, &req).expect("update");
    assert_eq!(updated.deployment_items.len(), 1);
    assert_eq!(updated.deployment_items[0].name, "app");
    assert_eq!(updated.deployment_items[0].status, ReleaseStatus::InDevelopment);
}

#[test]
fn status_update_clear_walks_the_transition_table() {
    let mut rel = Release::new(
        "R".to_string(),
        "c".to_string(),
        Environment::Development,
        Environment::Staging,
        vec!["data".to_string()],
        0,
        "alice".to_string(),
        false,
    );
    assert_eq!(apply_status_update(&mut rel, "clear"), Ok(()));
    assert_eq!(rel.status, ReleaseStatus::WaitingForStaging);
    // A waiting release is not clearable again.
    assert_eq!(
        apply_status_update(&mut rel, "clear"),
        Err(StatusUpdateError::NotClearable)
    );
    assert_eq!(rel.status, ReleaseStatus::WaitingForStaging);
}

#[test]
fn status_update_accepts_direct_names_and_rejects_unknown_ones() {
    let mut rel = Release::new(
        "R".to_string(),
        "c".to_string(),
        Environment::Development,
        Environment::Staging,
        vec!["data".to_string()],
        0,
        "alice".to_string(),
        false,
    );
    assert_eq!(apply_status_update(&mut rel, "Blocked"), Ok(()));
    assert_eq!(rel.status, ReleaseStatus::Blocked);
    assert_eq!(
        apply_status_update(&mut rel, "WaitingForStaging"),
        Err(StatusUpdateError::InvalidStatus)
    );
    assert_eq!(rel.status, ReleaseStatus::Blocked);
}

#[test]
fn board_column_keeps_the_stored_environment_on_error() {
    let mut rel = Release::new(
        "R".to_string(),
        "c".to_string(),
        Environment::Staging,
        Environment::Production,
        vec!["data".to_string()],
        0,
        "alice".to_string(),
        false,
    );
    rel.status = ReleaseStatus::DeployingToProduction;
    assert_eq!(rel.current_board_column(), Environment::Production);
    rel.status = ReleaseStatus::Error;
    assert_eq!(rel.current_board_column(), Environment::Staging);
    assert_eq!(rel.error_status(), ReleaseStatus::Error);
}

#[test]
fn progress_of_a_release_without_items_is_kept() {
    let mut rel = Release::new(
        "R".to_string(),
        "c".to_string(),
        Environment::Development,
        Environment::Staging,
        vec![],
        0,
        "alice".to_string(),
        false,
    );
    rel.progress = 37;
    assert_eq!(rel.calculate_progress(), 37);
    assert!(rel.all_items_completed());
    assert!(!rel.has_errors());
}

#[test]
fn auth_callback_state_must_match_the_csrf_token() {
    let cb = release_manager::AuthCallback {
        code: "abc".to_string(),
        state: "tok-1".to_string(),
    };
    assert!(cb.state_matches("tok-1"));
    assert!(!cb.state_matches("tok-2"));
    assert!(!cb.state_matches(""));
}

#[test]
fn default_clients_are_seeded_with_fresh_ids() {
    let clients = default_clients();
    assert_eq!(clients.len(), 10);
    assert_eq!(clients[0].name, "Acme Corporation");
    assert_eq!(clients[9].name, "Initech");
    for c in &clients {
        assert_eq!(c.id.len(), 36);
    }
    let c = new_client("New Corp".to_string());
    assert_eq!(c.name, "New Corp");
    assert_eq!(c.id.len(), 36);
}
