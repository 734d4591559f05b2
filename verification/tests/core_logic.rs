use clipboard_monitor::debounce::ContentKind;
use clipboard_monitor::debounce::DebounceState;
use clipboard_monitor::classify::get_text_subtype;
use clipboard_monitor::hash::hash_bytes;
use clipboard_monitor::hash::hash_string_vec;

#[test]
fn hash_is_deterministic() {
    let a = hash_bytes(b"hello world");
    let b = hash_bytes(b"hello world");
    assert_eq!(a, b);
}

#[test]
fn hash_known_values() {
    assert_eq!(hash_bytes(b""), 5381);
    assert_eq!(hash_bytes(b"a"), 177670);
    assert_eq!(hash_bytes(b"ab"), 5863208);
}

#[test]
fn hash_differs_for_different_content() {
    assert_ne!(hash_bytes(b"abc"), hash_bytes(b"abd"));
}

#[test]
fn path_hash_is_order_sensitive() {
    let ab = hash_string_vec(&["a".to_string(), "b".to_string()]);
    let ba = hash_string_vec(&["b".to_string(), "a".to_string()]);
    assert_ne!(ab, ba);
}

#[test]
fn path_hash_concatenates_in_order() {
    let joined = hash_string_vec(&["/tmp/".to_string(), "x.txt".to_string()]);
    assert_eq!(joined, hash_bytes(b"/tmp/x.txt"));
    assert_eq!(hash_string_vec(&[]), hash_bytes(b""));
}

#[test]
fn debounce_suppresses_repeated_fingerprint() {
    let mut state = DebounceState::new();
    assert!(state.should_process(ContentKind::Text, 42));
    assert!(!state.should_process(ContentKind::Text, 42));
}

#[test]
fn debounce_accepts_changed_fingerprint() {
    let mut state = DebounceState::new();
    assert!(state.should_process(ContentKind::Text, 42));
    assert!(state.should_process(ContentKind::Text, 43));
    assert!(state.should_process(ContentKind::Text, 42));
}

#[test]
fn debounce_kinds_are_independent() {
    let mut state = DebounceState::new();
    assert!(state.should_process(ContentKind::File, 7));
    assert!(state.should_process(ContentKind::Text, 7));
    assert!(!state.should_process(ContentKind::File, 7));
    assert!(!state.should_process(ContentKind::Text, 7));
}

#[test]
fn debounce_image_repeat_suppressed() {
    let mut state = DebounceState::new();
    assert!(state.should_process(ContentKind::Image, 9));
    assert!(!state.should_process(ContentKind::Image, 9));
}

#[test]
fn image_acceptance_resets_text_fingerprint() {
    let mut state = DebounceState::new();
    assert!(state.should_process(ContentKind::Text, 7));
    assert!(state.should_process(ContentKind::Image, 9));
    assert_eq!(state.last_text_hash, 0);
    // The pre-image text fingerprint is novel again after the image.
    assert!(state.should_process(ContentKind::Text, 7));
}

#[test]
fn default_state_is_all_zero() {
    let state = DebounceState::default();
    assert_eq!(state.last_text_hash, 0);
    assert_eq!(state.last_image_hash, 0);
    assert_eq!(state.last_files_hash, 0);
}

#[test]
fn classify_url() {
    assert_eq!(
        get_text_subtype("https://example.com/a?b=1"),
        Some("url".to_string())
    );
}

#[test]
fn classify_email() {
    assert_eq!(get_text_subtype("a.b@example.com"), Some("email".to_string()));
}

#[test]
fn classify_color() {
    assert_eq!(get_text_subtype("#1A2b3C"), Some("color".to_string()));
}

#[test]
fn classify_plain_text() {
    assert_eq!(get_text_subtype("hello world"), None);
}

#[test]
fn classify_url_variants() {
    assert_eq!(get_text_subtype("http://ab"), Some("url".to_string()));
    assert_eq!(get_text_subtype("see http://example.org today"), Some("url".to_string()));
    assert_eq!(get_text_subtype("http://"), None);
    assert_eq!(get_text_subtype("http://.bad"), None);
}

#[test]
fn classify_url_wins_over_email() {
    assert_eq!(
        get_text_subtype("http://a.b@example.com"),
        Some("url".to_string())
    );
}

#[test]
fn classify_email_variants() {
    assert_eq!(
        get_text_subtype("john.doe+tag@mail.example.org"),
        Some("email".to_string())
    );
    assert_eq!(get_text_subtype("_a@b.co"), Some("email".to_string()));
    // The local part has no word character, so no word boundary opens it.
    assert_eq!(get_text_subtype("%@b.co"), None);
    // The top-level domain runs into a digit: no closing word boundary.
    assert_eq!(get_text_subtype("a@b.co1"), None);
    // A one-letter top-level domain is too short.
    assert_eq!(get_text_subtype("a@b.c"), None);
    assert_eq!(get_text_subtype("mail me at a@b.de."), Some("email".to_string()));
}

#[test]
fn classify_color_variants() {
    assert_eq!(get_text_subtype("#abc"), Some("color".to_string()));
    assert_eq!(get_text_subtype("#ab"), None);
    assert_eq!(get_text_subtype("#1G2"), None);
    // The color pattern is anchored: surrounding text breaks it.
    assert_eq!(get_text_subtype(" #abc"), None);
    assert_eq!(get_text_subtype("#abcdef0"), None);
}

#[test]
fn classify_empty_text() {
    assert_eq!(get_text_subtype(""), None);
}
