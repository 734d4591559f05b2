use clipboard_monitor::config::Config;
use clipboard_monitor::debounce::DebounceState;
use clipboard_monitor::uploader::FailoverCursor;
use clipboard_monitor::uploader::UploadRoute;
use clipboard_monitor::uploader::is_success_status;
use clipboard_monitor::uploader::plan_upload;
use clipboard_monitor::watcher::ChangeAction;
use clipboard_monitor::watcher::ClipboardSnapshot;
use clipboard_monitor::watcher::clean_file_path;
use clipboard_monitor::watcher::file_name_of;
use clipboard_monitor::watcher::full_content_type;
use clipboard_monitor::watcher::handle_change;
use clipboard_monitor::watcher::notification_message;

fn test_config() -> Config {
    Config {
        text_urls: vec!["http://localhost:9501/text".to_string()],
        file_urls: vec!["http://localhost:9501/upload".to_string()],
        enable_text: true,
        enable_file: true,
        enable_monitoring: true,
        max_file_size_mb: 50,
        log_level: "info".to_string(),
        auth_token: None,
    }
}

#[test]
fn default_config_values() {
    let c = Config::default();
    assert_eq!(c.text_urls, vec!["http://localhost:9501/text".to_string()]);
    assert_eq!(c.file_urls, vec!["http://localhost:9501/upload".to_string()]);
    assert!(c.enable_text);
    assert!(c.enable_file);
    assert!(c.enable_monitoring);
    assert_eq!(c.max_file_size_mb, 50);
    assert_eq!(c.log_level, "info".to_string());
    assert!(c.auth_token.is_none());
}

#[test]
fn files_take_priority_over_text() {
    let mut state = DebounceState::new();
    let snapshot = ClipboardSnapshot {
        files: Some(vec!["/tmp/a.txt".to_string()]),
        image_png: None,
        text: Some("also here".to_string()),
    };
    let action = handle_change(&mut state, &test_config(), snapshot);
    assert!(matches!(action, ChangeAction::UploadFiles { .. }));
    // Only the files fingerprint was touched.
    assert_eq!(state.last_text_hash, 0);
    assert_ne!(state.last_files_hash, 0);
}

#[test]
fn image_takes_priority_over_text() {
    let mut state = DebounceState::new();
    let snapshot = ClipboardSnapshot {
        files: None,
        image_png: Some(vec![1, 2, 3]),
        text: Some("caption".to_string()),
    };
    let action = handle_change(&mut state, &test_config(), snapshot);
    assert!(matches!(action, ChangeAction::UploadImage { .. }));
    assert_eq!(state.last_text_hash, 0);
}

#[test]
fn monitoring_gate_drops_event() {
    let mut state = DebounceState::new();
    let mut config = test_config();
    config.enable_monitoring = false;
    let snapshot = ClipboardSnapshot {
        files: None,
        image_png: None,
        text: Some("fresh text".to_string()),
    };
    let action = handle_change(&mut state, &config, snapshot);
    assert!(matches!(action, ChangeAction::Ignored));
    assert_eq!(state, DebounceState::new());
}

#[test]
fn empty_content_is_dropped_before_fingerprinting() {
    let mut state = DebounceState::new();
    let empty_text = ClipboardSnapshot { files: None, image_png: None, text: Some(String::new()) };
    assert!(matches!(handle_change(&mut state, &test_config(), empty_text), ChangeAction::Ignored));
    let empty_files = ClipboardSnapshot { files: Some(vec![]), image_png: None, text: None };
    assert!(matches!(
        handle_change(&mut state, &test_config(), empty_files),
        ChangeAction::Ignored
    ));
    let empty_image = ClipboardSnapshot { files: None, image_png: Some(vec![]), text: None };
    assert!(matches!(
        handle_change(&mut state, &test_config(), empty_image),
        ChangeAction::Ignored
    ));
    assert_eq!(state, DebounceState::new());
}

#[test]
fn duplicate_text_event_ignored() {
    let mut state = DebounceState::new();
    let config = test_config();
    let snap = || ClipboardSnapshot {
        files: None,
        image_png: None,
        text: Some("copy me".to_string()),
    };
    let first = handle_change(&mut state, &config, snap());
    assert!(matches!(first, ChangeAction::UploadText { .. }));
    let second = handle_change(&mut state, &config, snap());
    assert!(matches!(second, ChangeAction::Ignored));
}

#[test]
fn text_action_carries_subtype() {
    let mut state = DebounceState::new();
    let snapshot = ClipboardSnapshot {
        files: None,
        image_png: None,
        text: Some("https://example.com/x".to_string()),
    };
    match handle_change(&mut state, &test_config(), snapshot) {
        ChangeAction::UploadText { text, subtype } => {
            assert_eq!(text, "https://example.com/x".to_string());
            assert_eq!(subtype, Some("url".to_string()));
        }
        _ => panic!("expected a text upload"),
    }
}

#[test]
fn empty_snapshot_ignored() {
    let mut state = DebounceState::new();
    let snapshot = ClipboardSnapshot { files: None, image_png: None, text: None };
    assert!(matches!(handle_change(&mut state, &test_config(), snapshot), ChangeAction::Ignored));
}

#[test]
fn file_uri_prefix_is_stripped() {
    assert_eq!(clean_file_path("file:///tmp/a.txt"), "/tmp/a.txt");
    assert_eq!(clean_file_path("/tmp/a.txt"), "/tmp/a.txt");
}

#[test]
fn file_name_after_last_slash() {
    assert_eq!(file_name_of("/tmp/dir/a.txt"), "a.txt".to_string());
    assert_eq!(file_name_of("a.txt"), "a.txt".to_string());
    assert_eq!(file_name_of("/tmp/dir/"), "file".to_string());
    assert_eq!(file_name_of(""), "file".to_string());
}

#[test]
fn full_content_type_joins_kind_and_subtype() {
    assert_eq!(full_content_type("text", Some("url")), "text_url".to_string());
    assert_eq!(full_content_type("text", None), "text".to_string());
    assert_eq!(full_content_type("image", None), "image".to_string());
}

#[test]
fn notification_text_for_outcomes() {
    let (title, body) = notification_message(true, "Text", "");
    assert_eq!(title, "Upload Success".to_string());
    assert_eq!(body, "'Text' uploaded".to_string());
    let (title, body) = notification_message(false, "Image", "All upload URLs failed");
    assert_eq!(title, "Upload Failed".to_string());
    assert_eq!(body, "'Image' upload error: All upload URLs failed".to_string());
}

#[test]
fn oversized_payload_rejected_before_any_transfer() {
    let mut config = test_config();
    config.max_file_size_mb = 1;
    let route = plan_upload(&config, "file", 2 * 1024 * 1024);
    assert_eq!(route, UploadRoute::RejectTooLarge);
    // One byte over the limit is already too large; the limit itself is not.
    assert_eq!(plan_upload(&config, "file", 1024 * 1024 + 1), UploadRoute::RejectTooLarge);
    assert_eq!(plan_upload(&config, "file", 1024 * 1024), UploadRoute::SendFile);
}

#[test]
fn content_types_route_to_endpoint_families() {
    let config = test_config();
    assert_eq!(plan_upload(&config, "text", 10), UploadRoute::SendText);
    assert_eq!(plan_upload(&config, "text_url", 10), UploadRoute::SendText);
    assert_eq!(plan_upload(&config, "text_email", 10), UploadRoute::SendText);
    assert_eq!(plan_upload(&config, "text_color", 10), UploadRoute::SendText);
    assert_eq!(plan_upload(&config, "image", 10), UploadRoute::SendFile);
    assert_eq!(plan_upload(&config, "file", 10), UploadRoute::SendFile);
    assert_eq!(plan_upload(&config, "text_something", 10), UploadRoute::SendFile);
}

#[test]
fn disabled_features_skip_transfer() {
    let mut config = test_config();
    config.enable_text = false;
    assert_eq!(plan_upload(&config, "text", 10), UploadRoute::SkipDisabled);
    assert_eq!(plan_upload(&config, "image", 10), UploadRoute::SendFile);
    config.enable_file = false;
    assert_eq!(plan_upload(&config, "image", 10), UploadRoute::SkipDisabled);
}

#[test]
fn failover_stops_at_first_success() {
    let urls = vec!["http://e1".to_string(), "http://e2".to_string()];
    let statuses = [500u16, 200u16];
    let mut cursor = FailoverCursor::new();
    let mut attempts: Vec<String> = Vec::new();
    let mut delivered = false;
    while let Some(url) = cursor.next_endpoint(&urls) {
        attempts.push(url.clone());
        if is_success_status(statuses[cursor.attempted]) {
            delivered = true;
            break;
        }
        cursor.record_failure();
    }
    assert!(delivered);
    assert_eq!(attempts, urls);
}

#[test]
fn failover_exhausts_all_failing_endpoints() {
    let urls = vec!["http://e1".to_string(), "http://e2".to_string()];
    let statuses = [500u16, 503u16];
    let mut cursor = FailoverCursor::new();
    let mut attempts: Vec<String> = Vec::new();
    let mut delivered = false;
    while let Some(url) = cursor.next_endpoint(&urls) {
        attempts.push(url.clone());
        if is_success_status(statuses[cursor.attempted]) {
            delivered = true;
            break;
        }
        cursor.record_failure();
    }
    assert!(!delivered);
    assert_eq!(attempts, urls);
    assert!(cursor.next_endpoint(&urls).is_none());
}

#[test]
fn empty_endpoint_list_fails_immediately() {
    let urls: Vec<String> = Vec::new();
    let cursor = FailoverCursor::new();
    assert!(cursor.next_endpoint(&urls).is_none());
}
