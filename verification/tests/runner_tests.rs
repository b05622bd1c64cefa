use release_manager::runner::{
    completion_status_name, item_script_name, parse_progress_marker, runner_outcome,
};

#[test]
fn marker_alone_is_parsed() {
    assert_eq!(
        parse_progress_marker("[PROGRESS:data:42]"),
        Some(("data".to_string(), 42))
    );
}

#[test]
fn marker_embedded_in_a_line_is_found() {
    assert_eq!(
        parse_progress_marker("loading tables [PROGRESS:solr:7] almost there"),
        Some(("solr".to_string(), 7))
    );
}

#[test]
fn leftmost_marker_wins() {
    assert_eq!(
        parse_progress_marker("[PROGRESS:app:10] and later [PROGRESS:app:90]"),
        Some(("app".to_string(), 10))
    );
}

#[test]
fn plain_lines_are_logs() {
    assert_eq!(parse_progress_marker("copying files..."), None);
    assert_eq!(parse_progress_marker(""), None);
}

#[test]
fn malformed_markers_are_logs() {
    assert_eq!(parse_progress_marker("[PROGRESS:data:]"), None);
    assert_eq!(parse_progress_marker("[PROGRESS::42]"), None);
    assert_eq!(parse_progress_marker("[PROGRESS:Data:42]"), None);
    assert_eq!(parse_progress_marker("[PROGRESS:data:42"), None);
    assert_eq!(parse_progress_marker("[progress:data:42]"), None);
    assert_eq!(parse_progress_marker("[PROGRESS:data:4a2]"), None);
}

#[test]
fn a_malformed_marker_does_not_hide_a_later_one() {
    assert_eq!(
        parse_progress_marker("[PROGRESS:data:] then [PROGRESS:data:5]"),
        Some(("data".to_string(), 5))
    );
}

#[test]
fn oversized_percentages_saturate() {
    assert_eq!(
        parse_progress_marker("[PROGRESS:app:4294967295]"),
        Some(("app".to_string(), u32::MAX))
    );
    assert_eq!(
        parse_progress_marker("[PROGRESS:app:99999999999999999999]"),
        Some(("app".to_string(), u32::MAX))
    );
}

#[test]
fn known_items_map_to_their_scripts() {
    assert_eq!(item_script_name("data"), Ok("deploy_data.sh"));
    assert_eq!(item_script_name("solr"), Ok("deploy_solr.sh"));
    assert_eq!(item_script_name("app"), Ok("deploy_app.sh"));
}

#[test]
fn unknown_items_are_configuration_errors() {
    assert_eq!(
        item_script_name("search"),
        Err("Unknown deployment item type: search".to_string())
    );
    assert_eq!(
        item_script_name("Data"),
        Err("Unknown deployment item type: Data".to_string())
    );
}

#[test]
fn exit_zero_succeeds() {
    assert_eq!(runner_outcome("data", 0), Ok(()));
}

#[test]
fn nonzero_exit_fails_with_the_code() {
    assert_eq!(
        runner_outcome("solr", 1),
        Err("solr deployment failed with exit code: 1".to_string())
    );
    assert_eq!(
        runner_outcome("app", 127),
        Err("app deployment failed with exit code: 127".to_string())
    );
    assert_eq!(
        runner_outcome("data", -1),
        Err("data deployment failed with exit code: -1".to_string())
    );
}

#[test]
fn completion_status_names_follow_the_environment() {
    assert_eq!(completion_status_name("staging"), "ReadyToTestInStaging");
    assert_eq!(completion_status_name("production"), "ReadyToTestInProduction");
    assert_eq!(completion_status_name("development"), "Completed");
}
