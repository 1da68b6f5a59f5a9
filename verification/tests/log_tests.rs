use merel::log_hub::LogHub;
use merel::running_build::RunningBuild;

#[test]
fn create_build_registers_an_empty_buffer() {
    let mut hub = LogHub::new();
    assert!(hub.create_build("b-1"));
    assert!(hub.contains("b-1"));
    let snapshot = hub.subscribe(&"b-1".to_string()).unwrap();
    assert!(snapshot.is_empty());
}

#[test]
fn create_build_rejects_a_duplicate_id() {
    let mut hub = LogHub::new();
    assert!(hub.create_build("b-1"));
    assert!(!hub.create_build("b-1"));
}

#[test]
fn subscribe_replays_exactly_the_appended_lines() {
    let mut hub = LogHub::new();
    hub.create_build("b-1");
    let id = "b-1".to_string();
    hub.send_log(&id, &"one".to_string());
    hub.send_log(&id, &"two".to_string());
    hub.send_log(&id, &"three".to_string());

    let snapshot = hub.subscribe(&id).unwrap();
    assert_eq!(snapshot, vec!["one", "two", "three"]);

    hub.send_log(&id, &"four".to_string());
    let snapshot = hub.subscribe(&id).unwrap();
    assert_eq!(snapshot, vec!["one", "two", "three", "four"]);
}

#[test]
fn send_log_to_unknown_id_is_a_no_op() {
    let mut hub = LogHub::new();
    hub.create_build("b-1");
    hub.send_log(&"b-2".to_string(), &"lost".to_string());
    assert!(!hub.contains("b-2"));
    assert!(hub.subscribe(&"b-2".to_string()).is_none());
}

#[test]
fn send_log_touches_only_the_named_build() {
    let mut hub = LogHub::new();
    hub.create_build("b-1");
    hub.create_build("b-2");
    hub.send_log(&"b-1".to_string(), &"only for one".to_string());
    assert_eq!(
        hub.subscribe(&"b-1".to_string()).unwrap(),
        vec!["only for one"]
    );
    assert!(hub.subscribe(&"b-2".to_string()).unwrap().is_empty());
}

#[test]
fn pop_build_removes_the_entry_and_returns_its_logs() {
    let mut hub = LogHub::new();
    hub.create_build("b-1");
    let id = "b-1".to_string();
    hub.send_log(&id, &"line".to_string());

    let build = hub.pop_build(&id).unwrap();
    assert_eq!(build.id, "b-1");
    assert_eq!(build.logs, vec!["line"]);
    assert!(!hub.contains("b-1"));
    assert!(hub.pop_build(&id).is_none());
}

#[test]
fn render_logs_joins_lines_with_a_trailing_newline() {
    let mut build = RunningBuild::new("b-1");
    build.logs.push("first".to_string());
    build.logs.push("second".to_string());
    assert_eq!(build.render_logs(), "first\nsecond\n");
}

#[test]
fn render_logs_of_an_empty_buffer_is_one_newline() {
    let build = RunningBuild::new("b-1");
    assert_eq!(build.render_logs(), "\n");
}

#[test]
fn log_path_is_keyed_by_build_id() {
    let build = RunningBuild::new("7b4d");
    assert_eq!(
        build.log_path("/tmp/merel/logs"),
        "/tmp/merel/logs/7b4d-logs.txt"
    );
}

#[test]
fn subscriber_backlog_prefers_the_live_snapshot() {
    let (backlog, live) = merel::log_hub::subscription_backlog(
        Some(vec!["one".to_string(), "two".to_string()]),
        Some("persisted\n".to_string()),
    );
    assert!(live);
    assert_eq!(backlog, vec!["one", "two"]);
}

#[test]
fn subscriber_backlog_falls_back_to_the_persisted_log() {
    let (backlog, live) =
        merel::log_hub::subscription_backlog(None, Some("first\nsecond\n".to_string()));
    assert!(!live);
    assert_eq!(backlog, vec!["first\nsecond\n"]);
}

#[test]
fn subscriber_backlog_without_any_source_is_the_sentinel() {
    let (backlog, live) = merel::log_hub::subscription_backlog(None, None);
    assert!(!live);
    assert_eq!(backlog, vec!["No events found for this repository"]);
}
