use local_bridge::greet;
use local_bridge::routes::{
    download_response, handle_download_file_info, handle_health_check, handle_root,
    reply_after_forwarding,
};

#[test]
fn greet_builds_the_full_greeting() {
    assert_eq!(greet("World"), "Hello, World! You've been greeted from Rust!");
    assert_eq!(greet(""), "Hello, ! You've been greeted from Rust!");
}

#[test]
fn root_replies_200_and_owes_the_greeting_message() {
    let r = handle_root();
    assert_eq!(r.status, 200);
    assert_eq!(r.body, "Hello from Axum!");
    assert_eq!(r.message.as_deref(), Some("Hello from Axum to Tauri!"));
    assert!(r.info.is_none());
}

#[test]
fn health_check_replies_200_ok_with_no_side_effect() {
    let r = handle_health_check();
    assert_eq!(r.status, 200);
    assert_eq!(r.body, "OK");
    assert!(r.message.is_none());
    assert!(r.info.is_none());
}

#[test]
fn health_check_unaffected_by_a_failed_channel() {
    // The probe owes no message, so even a dead forwarding channel cannot
    // turn it into a server error.
    let r = reply_after_forwarding(handle_health_check(), true);
    assert_eq!(r.status, 200);
    assert_eq!(r.body, "OK");
}

#[test]
fn valid_json_replies_200_and_forwards_the_raw_text() {
    let raw = "{\"anything\": [1, 2, 3]}";
    let r = handle_download_file_info(raw.to_string());
    assert_eq!(r.status, 200);
    assert_eq!(r.body, "Download info received and sent to Tauri");
    assert_eq!(r.message.as_deref(), Some(raw));
}

#[test]
fn valid_json_of_the_wrong_shape_is_still_accepted() {
    // Shape mismatch is advisory: the typed reading fails, the raw text is
    // still confirmed and forwarded.
    let raw = "7";
    let r = handle_download_file_info(raw.to_string());
    assert_eq!(r.status, 200);
    assert_eq!(r.message.as_deref(), Some(raw));
    assert!(r.info.is_none());
}

#[test]
fn malformed_json_replies_400_and_forwards_nothing() {
    let r = handle_download_file_info("not json {".to_string());
    assert_eq!(r.status, 400);
    assert_eq!(r.body, "Invalid JSON body");
    assert!(r.message.is_none());
    assert!(r.info.is_none());
}

#[test]
fn empty_body_is_malformed_json() {
    let r = handle_download_file_info(String::new());
    assert_eq!(r.status, 400);
    assert!(r.message.is_none());
}

#[test]
fn typed_reading_extracts_the_three_fields() {
    let raw = "{\"url\":\"http://x/a\",\"hash\":\"deadbeef\",\"remote_id\":7}";
    let r = handle_download_file_info(raw.to_string());
    assert_eq!(r.status, 200);
    let info = r.info.expect("the typed reading must succeed on this shape");
    assert_eq!(info.url, "http://x/a");
    assert_eq!(info.hash, "deadbeef");
    assert_eq!(info.remote_id, 7);
    assert_eq!(r.message.as_deref(), Some(raw));
}

#[test]
fn typed_reading_fails_without_all_three_fields() {
    let r = handle_download_file_info("{\"url\":\"http://x/a\"}".to_string());
    assert_eq!(r.status, 200);
    assert!(r.info.is_none());
}

#[test]
fn download_response_settles_both_outcomes() {
    let ok = download_response("{}".to_string(), true, None);
    assert_eq!(ok.status, 200);
    assert_eq!(ok.message.as_deref(), Some("{}"));
    let bad = download_response("oops".to_string(), false, None);
    assert_eq!(bad.status, 400);
    assert!(bad.message.is_none());
}

#[test]
fn closed_channel_turns_an_owed_message_into_a_server_error() {
    let r = reply_after_forwarding(handle_root(), true);
    assert_eq!(r.status, 500);
    assert_eq!(r.body, "Failed to forward message");
}

#[test]
fn admitted_message_keeps_the_handler_reply() {
    let r = reply_after_forwarding(handle_root(), false);
    assert_eq!(r.status, 200);
    assert_eq!(r.body, "Hello from Axum!");
}
