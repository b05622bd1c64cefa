use release_manager::hub::{
    app_log_event, handle_client_message, heartbeat_expired, release_update_event,
    release_update_is_error, ClientTextAction, CLIENT_TIMEOUT_MILLIS,
};
use release_manager::{SessionRegistry, WsMessage};

#[test]
fn broadcast_reaches_exactly_the_registered_sessions() {
    let mut reg = SessionRegistry::new();
    assert!(reg.register("s1".to_string()));
    assert!(reg.register("s2".to_string()));
    assert!(reg.register("s3".to_string()));

    let delivered = reg.broadcast_recipients();
    assert_eq!(delivered, vec!["s1", "s2", "s3"]);

    assert!(reg.register("s4".to_string()));
    // The snapshot taken at broadcast time is unchanged: the late session
    // receives nothing retroactively.
    assert!(!delivered.contains(&"s4".to_string()));
    assert_eq!(reg.broadcast_recipients().len(), 4);
}

#[test]
fn registering_twice_is_a_no_op() {
    let mut reg = SessionRegistry::new();
    assert!(reg.register("s1".to_string()));
    assert!(!reg.register("s1".to_string()));
    assert_eq!(reg.len(), 1);
}

#[test]
fn unregister_removes_only_the_named_session() {
    let mut reg = SessionRegistry::new();
    assert!(reg.register("s1".to_string()));
    assert!(reg.register("s2".to_string()));
    assert!(reg.unregister("s1"));
    assert!(!reg.is_registered("s1"));
    assert!(reg.is_registered("s2"));
    assert!(!reg.unregister("s1"));
    assert_eq!(reg.len(), 1);
}

#[test]
fn chat_reaches_everyone_but_the_sender() {
    let mut reg = SessionRegistry::new();
    assert!(reg.register("s1".to_string()));
    assert!(reg.register("s2".to_string()));
    assert!(reg.register("s3".to_string()));
    assert_eq!(reg.chat_recipients("s2"), vec!["s1", "s3"]);
}

#[test]
fn chat_with_nobody_else_reaches_nobody() {
    let mut reg = SessionRegistry::new();
    assert!(reg.register("s1".to_string()));
    assert!(reg.chat_recipients("s1").is_empty());
}

#[test]
fn client_chat_is_restamped_and_broadcast() {
    let incoming = WsMessage::Chat {
        username: "spoofed".to_string(),
        message: "hello".to_string(),
        timestamp: "1999-01-01T00:00:00Z".to_string(),
    };
    match handle_client_message(incoming, &"alice".to_string()) {
        ClientTextAction::Broadcast(WsMessage::Chat { username, message, .. }) => {
            assert_eq!(username, "alice");
            assert_eq!(message, "hello");
        }
        _ => panic!("a chat line must be broadcast"),
    }
}

#[test]
fn client_release_updates_and_app_logs_are_dropped() {
    let update = WsMessage::ReleaseUpdate {
        release_id: "r1".to_string(),
        status: "Error".to_string(),
        progress: 0,
        log_line: None,
    };
    assert!(matches!(
        handle_client_message(update, &"alice".to_string()),
        ClientTextAction::Ignore
    ));
    let log = WsMessage::AppLog {
        level: "info".to_string(),
        message: "hi".to_string(),
        timestamp: String::new(),
    };
    assert!(matches!(
        handle_client_message(log, &"alice".to_string()),
        ClientTextAction::Ignore
    ));
}

#[test]
fn release_update_event_carries_its_fields() {
    let ev = release_update_event("r1".to_string(), "InProgress".to_string(), 50, None);
    match ev {
        WsMessage::ReleaseUpdate { release_id, status, progress, log_line } => {
            assert_eq!(release_id, "r1");
            assert_eq!(status, "InProgress");
            assert_eq!(progress, 50);
            assert_eq!(log_line, None);
        }
        _ => panic!("wrong event kind"),
    }
}

#[test]
fn app_log_event_carries_level_and_message() {
    match app_log_event("warn".to_string(), "low disk".to_string()) {
        WsMessage::AppLog { level, message, .. } => {
            assert_eq!(level, "warn");
            assert_eq!(message, "low disk");
        }
        _ => panic!("wrong event kind"),
    }
}

#[test]
fn error_classification_follows_the_log_line() {
    assert!(release_update_is_error(
        "InProgress",
        &Some("[solr] ERROR something broke".to_string())
    ));
    assert!(release_update_is_error("InProgress", &Some("an error occurred".to_string())));
    assert!(release_update_is_error("InProgress", &Some("FAILED to start".to_string())));
    assert!(release_update_is_error("Error", &Some("all fine so far".to_string())));
    assert!(!release_update_is_error("InProgress", &Some("all fine".to_string())));
    // Without a log line nothing is classified as an error, whatever the
    // status says.
    assert!(!release_update_is_error("Error", &None));
}

#[test]
fn heartbeat_expiry_is_a_strict_window() {
    assert!(!heartbeat_expired(0, CLIENT_TIMEOUT_MILLIS, CLIENT_TIMEOUT_MILLIS));
    assert!(heartbeat_expired(0, CLIENT_TIMEOUT_MILLIS + 1, CLIENT_TIMEOUT_MILLIS));
    assert!(!heartbeat_expired(5000, 6000, CLIENT_TIMEOUT_MILLIS));
}
