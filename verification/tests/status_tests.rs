use release_manager::status::parse_environment;
use release_manager::status::parse_release_status;
use release_manager::{Environment, ReleaseStatus};

fn all_statuses() -> Vec<ReleaseStatus> {
    vec![
        ReleaseStatus::InDevelopment,
        ReleaseStatus::ClearedInDevelopment,
        ReleaseStatus::WaitingForStaging,
        ReleaseStatus::WaitingForProduction,
        ReleaseStatus::DeployingToStaging,
        ReleaseStatus::ReadyToTestInStaging,
        ReleaseStatus::ClearedInStaging,
        ReleaseStatus::WaitingForProductionFromStaging,
        ReleaseStatus::DeployingToProduction,
        ReleaseStatus::ReadyToTestInProduction,
        ReleaseStatus::ClearedInProduction,
        ReleaseStatus::Error,
        ReleaseStatus::Blocked,
    ]
}

#[test]
fn environment_is_total() {
    for s in all_statuses() {
        let env = s.environment();
        assert!(
            env == Environment::Development
                || env == Environment::Staging
                || env == Environment::Production
        );
    }
}

#[test]
fn environment_mapping() {
    assert_eq!(ReleaseStatus::InDevelopment.environment(), Environment::Development);
    assert_eq!(ReleaseStatus::WaitingForStaging.environment(), Environment::Development);
    assert_eq!(ReleaseStatus::WaitingForProduction.environment(), Environment::Development);
    assert_eq!(ReleaseStatus::DeployingToStaging.environment(), Environment::Staging);
    assert_eq!(ReleaseStatus::ReadyToTestInStaging.environment(), Environment::Staging);
    assert_eq!(
        ReleaseStatus::WaitingForProductionFromStaging.environment(),
        Environment::Staging
    );
    assert_eq!(ReleaseStatus::DeployingToProduction.environment(), Environment::Production);
    assert_eq!(ReleaseStatus::ClearedInProduction.environment(), Environment::Production);
}

#[test]
fn cleared_transition_table() {
    assert_eq!(
        ReleaseStatus::InDevelopment.next_status_when_cleared(true),
        Some(ReleaseStatus::WaitingForProduction)
    );
    assert_eq!(
        ReleaseStatus::InDevelopment.next_status_when_cleared(false),
        Some(ReleaseStatus::WaitingForStaging)
    );
    for skip in [false, true] {
        assert_eq!(
            ReleaseStatus::ReadyToTestInStaging.next_status_when_cleared(skip),
            Some(ReleaseStatus::WaitingForProductionFromStaging)
        );
        assert_eq!(
            ReleaseStatus::ReadyToTestInProduction.next_status_when_cleared(skip),
            Some(ReleaseStatus::ClearedInProduction)
        );
    }
    for s in all_statuses() {
        let clearable = s == ReleaseStatus::InDevelopment
            || s == ReleaseStatus::ReadyToTestInStaging
            || s == ReleaseStatus::ReadyToTestInProduction;
        for skip in [false, true] {
            assert_eq!(s.next_status_when_cleared(skip).is_some(), clearable);
        }
    }
}

#[test]
fn display_names() {
    assert_eq!(ReleaseStatus::InDevelopment.display_name(), "In Development");
    assert_eq!(ReleaseStatus::ClearedInProduction.display_name(), "Completed");
    assert_eq!(
        ReleaseStatus::WaitingForProductionFromStaging.display_name(),
        "Waiting for Production"
    );
    assert_eq!(ReleaseStatus::Error.display_name(), "Error");
}

#[test]
fn css_classes() {
    assert_eq!(ReleaseStatus::InDevelopment.css_class(), "status-in-development");
    assert_eq!(
        ReleaseStatus::DeployingToStaging.css_class(),
        "status-deploying status-deploying-to-staging"
    );
    assert_eq!(ReleaseStatus::Blocked.css_class(), "status-blocked");
}

#[test]
fn deploy_environment_names() {
    assert_eq!(ReleaseStatus::WaitingForStaging.deploy_environment_name(), Some("staging"));
    assert_eq!(ReleaseStatus::DeployingToStaging.deploy_environment_name(), Some("staging"));
    assert_eq!(
        ReleaseStatus::WaitingForProduction.deploy_environment_name(),
        Some("production")
    );
    assert_eq!(
        ReleaseStatus::WaitingForProductionFromStaging.deploy_environment_name(),
        Some("production")
    );
    assert_eq!(
        ReleaseStatus::DeployingToProduction.deploy_environment_name(),
        Some("production")
    );
    assert_eq!(ReleaseStatus::InDevelopment.deploy_environment_name(), None);
    assert_eq!(ReleaseStatus::Error.deploy_environment_name(), None);
}

#[test]
fn parse_environment_accepts_known_names_case_insensitively() {
    assert_eq!(parse_environment("development"), Ok(Environment::Development));
    assert_eq!(parse_environment("Development"), Ok(Environment::Development));
    assert_eq!(parse_environment("STAGING"), Ok(Environment::Staging));
    assert_eq!(parse_environment("Production"), Ok(Environment::Production));
}

#[test]
fn parse_environment_rejects_unknown_names() {
    assert_eq!(parse_environment("qa"), Err("Invalid environment: qa".to_string()));
    assert_eq!(parse_environment(""), Err("Invalid environment: ".to_string()));
}

#[test]
fn parse_release_status_accepts_wire_names() {
    assert_eq!(
        parse_release_status("ReadyToTestInStaging"),
        Some(ReleaseStatus::ReadyToTestInStaging)
    );
    assert_eq!(parse_release_status("Error"), Some(ReleaseStatus::Error));
    assert_eq!(parse_release_status("Blocked"), Some(ReleaseStatus::Blocked));
}

#[test]
fn parse_release_status_rejects_unknown_and_internal_names() {
    assert_eq!(parse_release_status("WaitingForStaging"), None);
    assert_eq!(parse_release_status("WaitingForProduction"), None);
    assert_eq!(parse_release_status("nonsense"), None);
    assert_eq!(parse_release_status("readytotestinstaging"), None);
}
