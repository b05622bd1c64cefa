use release_manager::api::apply_status_update;
use release_manager::orchestrator::{
    apply_item_result, finalize_release, releases_to_process, start_deployment,
};
use release_manager::runner::runner_outcome;
use release_manager::{Environment, Release, ReleaseStatus};

fn fresh_release(items: &[&str], skip_staging: bool) -> Release {
    Release::new(
        "Spring release".to_string(),
        "client-1".to_string(),
        Environment::Development,
        Environment::Staging,
        items.iter().map(|s| s.to_string()).collect(),
        0,
        "alice".to_string(),
        skip_staging,
    )
}

#[test]
fn staging_deployment_succeeds_end_to_end() {
    let mut rel = fresh_release(&["data", "solr"], false);
    assert_eq!(rel.status, ReleaseStatus::InDevelopment);
    assert_eq!(rel.progress, 0);

    assert!(apply_status_update(&mut rel, "clear").is_ok());
    assert_eq!(rel.status, ReleaseStatus::WaitingForStaging);

    assert!(start_deployment(&mut rel));
    assert_eq!(rel.status, ReleaseStatus::DeployingToStaging);
    assert_eq!(rel.progress, 0);
    for item in &rel.deployment_items {
        assert_eq!(item.status, ReleaseStatus::DeployingToStaging);
    }

    assert!(apply_item_result(&mut rel, "data", runner_outcome("data", 0)));
    assert_eq!(rel.progress, 50);
    assert_eq!(rel.status, ReleaseStatus::DeployingToStaging);

    assert!(apply_item_result(&mut rel, "solr", runner_outcome("solr", 0)));
    assert_eq!(rel.progress, 100);

    assert!(finalize_release(&mut rel));
    assert_eq!(rel.status, ReleaseStatus::ReadyToTestInStaging);
    assert_eq!(rel.progress, 100);
    for item in &rel.deployment_items {
        assert_eq!(item.status, ReleaseStatus::ReadyToTestInStaging);
        assert!(item.error.is_none());
    }
}

#[test]
fn failing_item_fails_the_release() {
    let mut rel = fresh_release(&["data", "solr"], false);
    assert!(apply_status_update(&mut rel, "clear").is_ok());
    assert!(start_deployment(&mut rel));

    assert!(apply_item_result(&mut rel, "data", runner_outcome("data", 0)));
    assert!(apply_item_result(&mut rel, "solr", runner_outcome("solr", 1)));
    assert_eq!(rel.progress, 50);

    assert!(finalize_release(&mut rel));
    assert_eq!(rel.status, ReleaseStatus::Error);
    assert_eq!(rel.progress, 0);

    let data = &rel.deployment_items[0];
    assert_eq!(data.name, "data");
    assert_eq!(data.status, ReleaseStatus::ReadyToTestInStaging);
    assert!(data.error.is_none());

    let solr = &rel.deployment_items[1];
    assert_eq!(solr.name, "solr");
    assert_eq!(solr.status, ReleaseStatus::Error);
    assert_eq!(
        solr.error,
        Some("solr deployment failed with exit code: 1".to_string())
    );
}

#[test]
fn entry_step_is_idempotent() {
    let mut rel = fresh_release(&["data", "app"], false);
    assert!(apply_status_update(&mut rel, "clear").is_ok());
    assert!(start_deployment(&mut rel));
    let once = rel.clone();

    assert!(start_deployment(&mut rel));
    assert_eq!(rel.status, once.status);
    assert_eq!(rel.progress, once.progress);
    assert_eq!(rel.deployment_items.len(), once.deployment_items.len());
    for (a, b) in rel.deployment_items.iter().zip(once.deployment_items.iter()) {
        assert_eq!(a.name, b.name);
        assert_eq!(a.status, b.status);
        assert_eq!(a.logs, b.logs);
        assert_eq!(a.error, b.error);
    }
}

#[test]
fn entry_step_skips_releases_outside_the_pipeline() {
    let mut rel = fresh_release(&["data"], false);
    assert!(!start_deployment(&mut rel));
    assert_eq!(rel.status, ReleaseStatus::InDevelopment);
}

#[test]
fn skip_staging_goes_straight_to_production() {
    let mut rel = Release::new(
        "Hotfix".to_string(),
        "client-2".to_string(),
        Environment::Development,
        Environment::Production,
        vec!["app".to_string()],
        0,
        "bob".to_string(),
        true,
    );
    assert!(apply_status_update(&mut rel, "clear").is_ok());
    assert_eq!(rel.status, ReleaseStatus::WaitingForProduction);

    assert!(start_deployment(&mut rel));
    assert_eq!(rel.status, ReleaseStatus::DeployingToProduction);
    assert_eq!(rel.status.deploy_environment_name(), Some("production"));

    assert!(apply_item_result(&mut rel, "app", runner_outcome("app", 0)));
    assert_eq!(rel.progress, 100);
    assert!(finalize_release(&mut rel));
    assert_eq!(rel.status, ReleaseStatus::ReadyToTestInProduction);
}

#[test]
fn finalize_waits_for_stragglers() {
    let mut rel = fresh_release(&["data", "solr"], false);
    assert!(apply_status_update(&mut rel, "clear").is_ok());
    assert!(start_deployment(&mut rel));
    assert!(apply_item_result(&mut rel, "data", Ok(())));

    assert!(!finalize_release(&mut rel));
    assert_eq!(rel.status, ReleaseStatus::DeployingToStaging);
    assert_eq!(rel.progress, 50);
}

#[test]
fn unknown_item_results_are_ignored() {
    let mut rel = fresh_release(&["data"], false);
    assert!(apply_status_update(&mut rel, "clear").is_ok());
    assert!(start_deployment(&mut rel));
    assert!(!apply_item_result(&mut rel, "search", Ok(())));
    assert_eq!(rel.progress, 0);
    assert_eq!(rel.deployment_items[0].status, ReleaseStatus::DeployingToStaging);
}

#[test]
fn aggregate_progress_is_the_successful_share() {
    let mut rel = fresh_release(&["a", "b", "c"], false);
    assert!(apply_status_update(&mut rel, "clear").is_ok());
    assert!(start_deployment(&mut rel));
    assert!(apply_item_result(&mut rel, "a", Ok(())));
    assert_eq!(rel.progress, 33);
    assert!(apply_item_result(&mut rel, "b", Ok(())));
    assert_eq!(rel.progress, 66);
    assert!(apply_item_result(&mut rel, "c", Err("boom".to_string())));
    assert_eq!(rel.progress, 66);
}

#[test]
fn scheduler_selects_only_processable_releases() {
    let mut waiting = fresh_release(&["data"], false);
    assert!(apply_status_update(&mut waiting, "clear").is_ok());
    let idle = fresh_release(&["data"], false);
    let mut deploying = fresh_release(&["data"], false);
    assert!(apply_status_update(&mut deploying, "clear").is_ok());
    assert!(start_deployment(&mut deploying));

    let picked = releases_to_process(vec![waiting.clone(), idle.clone(), deploying.clone()]);
    assert_eq!(picked.len(), 2);
    assert_eq!(picked[0].id, waiting.id);
    assert_eq!(picked[1].id, deploying.id);
}
