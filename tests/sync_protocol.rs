use story_sync::client::{
    connect_outcome, connection_failed, invalid_response, pull_outcome, push_outcome, timeout_secs,
    LIST_TIMEOUT_SECS, TRANSFER_TIMEOUT_SECS,
};
use story_sync::lifecycle::SyncState;
use story_sync::pairing::{generate_qr_code, new_token, TOKEN_LEN};
use story_sync::preview::{parse_story_preview, preview_from_fields};
use story_sync::session::{handle_sync, ServerState};
use story_sync::types::{QrCodeData, SyncAction, SyncRequest, SyncResponse, SyncServerInfo, SyncStoryPreview};

const STORY_A: &str = r#"{"story":{"id":"a","title":"Foo","genre":"fantasy","updatedAt":1700000000},"entries":[1,2,3]}"#;
const STORY_B: &str = r#"{"story":{"id":"b"},"entries":[]}"#;

fn session_with(token: &str, stories: &[&str]) -> ServerState {
    ServerState::create(token.to_string(), Some(stories.iter().map(|s| s.to_string()).collect()))
}

fn error_message(r: &SyncResponse) -> String {
    match r {
        SyncResponse::Error { message } => message.clone(),
        other => panic!("expected an error, got {:?}", other),
    }
}

#[test]
fn wrong_token_is_rejected_for_every_action() {
    let mut s = session_with("right", &[STORY_A]);
    let requests = vec![
        SyncRequest::list_stories("wrong".to_string()),
        SyncRequest::pull_story("wrong".to_string(), "a".to_string()),
        SyncRequest::push_story("wrong".to_string(), "payload".to_string()),
        SyncRequest::list_stories(String::new()),
    ];
    for req in requests {
        let r = handle_sync(&mut s, req);
        assert_eq!(error_message(&r), "Invalid authentication token");
    }
    assert!(s.peek_received().is_empty());
}

#[test]
fn invalid_exports_are_dropped() {
    let s = session_with("t", &[STORY_A, "not json", STORY_B, r#"{"entries":[]}"#, "{"]);
    let previews = s.list_previews();
    assert_eq!(previews.len(), 2);
    assert_eq!(previews[0].id, "a");
    assert_eq!(previews[1].id, "b");
}

#[test]
fn create_without_stories_offers_nothing() {
    let s = ServerState::create("t".to_string(), None);
    assert!(s.list_previews().is_empty());
    assert_eq!(s.token_text(), "t");
}

#[test]
fn from_extracted_keeps_order_and_counts_valid() {
    let p = preview_from_fields(Some("x".to_string()), None, None, None, None);
    let inputs = vec![
        ("one".to_string(), Some(p.clone())),
        ("two".to_string(), None),
        ("three".to_string(), Some(p)),
    ];
    let s = ServerState::from_extracted("t".to_string(), inputs);
    assert_eq!(s.list_previews().len(), 2);
    assert_eq!(s.find_payload(&"x".to_string()), Some("one".to_string()));
}

#[test]
fn preview_fields_are_read() {
    let p = parse_story_preview(STORY_A).unwrap();
    assert_eq!(p.id, "a");
    assert_eq!(p.title, "Foo");
    assert_eq!(p.genre, Some("fantasy".to_string()));
    assert_eq!(p.updated_at, 1700000000);
    assert_eq!(p.entry_count, 3);
}

#[test]
fn preview_defaults() {
    let p = parse_story_preview(r#"{"story":{"title":7,"updatedAt":"x"}}"#).unwrap();
    assert_eq!(p.id, "");
    assert_eq!(p.title, "Untitled");
    assert_eq!(p.genre, None);
    assert_eq!(p.updated_at, 0);
    assert_eq!(p.entry_count, 0);
}

#[test]
fn preview_errors() {
    let e = parse_story_preview("{oops").unwrap_err();
    assert!(e.starts_with("Invalid JSON: "));
    assert!(e.len() > "Invalid JSON: ".len());
    let e = parse_story_preview(r#"{"entries":[]}"#).unwrap_err();
    assert_eq!(e, "Missing 'story' field in export");
}

#[test]
fn pull_returns_exact_payload_or_error_with_id() {
    let mut s = session_with("t", &[STORY_A, STORY_B]);
    let r = handle_sync(&mut s, SyncRequest::pull_story("t".to_string(), "b".to_string()));
    assert_eq!(pull_outcome(r), Ok(STORY_B.to_string()));
    let r = handle_sync(&mut s, SyncRequest::pull_story("t".to_string(), "missing".to_string()));
    assert_eq!(error_message(&r), "Story not found: missing");
}

#[test]
fn pull_of_duplicate_id_gives_first() {
    let first = r#"{"story":{"id":"d","title":"First"}}"#;
    let second = r#"{"story":{"id":"d","title":"Second"}}"#;
    let s = session_with("t", &[first, second]);
    assert_eq!(s.find_payload(&"d".to_string()), Some(first.to_string()));
}

#[test]
fn pushes_are_kept_in_order_and_drained() {
    let mut s = session_with("t", &[]);
    for p in ["p1", "p2", "p3"] {
        let r = handle_sync(&mut s, SyncRequest::push_story("t".to_string(), p.to_string()));
        match &r {
            SyncResponse::Success { message } => assert_eq!(message, "Story received successfully"),
            other => panic!("unexpected {:?}", other),
        }
        assert_eq!(s.peek_received().last().map(|x| x.as_str()), Some(p));
    }
    let peeked = s.peek_received();
    assert_eq!(peeked, vec!["p1", "p2", "p3"]);
    assert_eq!(s.drain_received(), peeked);
    assert!(s.peek_received().is_empty());
    assert_eq!(s.list_previews().len(), 0);
}

#[test]
fn restart_gives_new_token_and_revokes_old() {
    let mut m: SyncState<u32> = SyncState::default();
    let t1 = new_token();
    assert_eq!(m.install(1, ServerState::create(t1.clone(), None)), None);
    let t2 = new_token();
    assert_ne!(t1, t2);
    let old = m.stop();
    assert_eq!(old, Some(1));
    assert_eq!(m.install(2, ServerState::create(t2.clone(), None)), None);
    let r = m.respond(SyncRequest::list_stories(t1));
    assert_eq!(error_message(&r), "Invalid authentication token");
    let r = m.respond(SyncRequest::list_stories(t2));
    assert!(matches!(r, SyncResponse::StoriesList { .. }));
}

#[test]
fn install_hands_back_the_running_task() {
    let mut m: SyncState<u32> = SyncState::default();
    m.install(1, ServerState::new("a".to_string()));
    assert_eq!(m.install(2, ServerState::new("b".to_string())), Some(1));
    assert!(m.running());
    assert_eq!(m.current_session().unwrap().token_text(), "b");
}

#[test]
fn stop_is_idempotent() {
    let mut m: SyncState<u32> = SyncState::default();
    assert_eq!(m.stop(), None);
    assert_eq!(m.stop(), None);
    assert!(!m.running());
    m.install(7, ServerState::new("t".to_string()));
    assert_eq!(m.stop(), Some(7));
    assert_eq!(m.stop(), None);
    assert!(m.current_session().is_none());
    assert!(m.received_stories().is_empty());
}

#[test]
fn stopped_manager_refuses_requests() {
    let mut m: SyncState<u32> = SyncState::default();
    let r = m.respond(SyncRequest::list_stories("any".to_string()));
    assert_eq!(error_message(&r), "Invalid authentication token");
}

#[test]
fn manager_received_stories_and_clear() {
    let mut m: SyncState<u32> = SyncState::default();
    m.install(1, ServerState::new("t".to_string()));
    m.respond(SyncRequest::push_story("t".to_string(), "x".to_string()));
    m.respond(SyncRequest::push_story("t".to_string(), "y".to_string()));
    assert_eq!(m.received_stories(), vec!["x", "y"]);
    m.clear_received_stories();
    assert!(m.received_stories().is_empty());
    m.respond(SyncRequest::push_story("t".to_string(), "z".to_string()));
    assert_eq!(m.take_received_stories(), vec!["z"]);
    assert!(m.received_stories().is_empty());
}

#[test]
fn end_to_end_through_the_protocol() {
    let story = r#"{"story":{"id":"a","title":"Foo"},"entries":[{},{},{}]}"#;
    let mut m: SyncState<u32> = SyncState::default();
    let token = new_token();
    m.install(1, ServerState::create(token.clone(), Some(vec![story.to_string()])));

    let previews = connect_outcome(m.respond(SyncRequest::list_stories(token.clone()))).unwrap();
    assert_eq!(previews.len(), 1);
    assert_eq!(previews[0].id, "a");
    assert_eq!(previews[0].title, "Foo");
    assert_eq!(previews[0].entry_count, 3);

    let data = pull_outcome(m.respond(SyncRequest::pull_story(token.clone(), "a".to_string()))).unwrap();
    assert_eq!(data, story);

    let err = pull_outcome(m.respond(SyncRequest::pull_story(token.clone(), "missing".to_string()))).unwrap_err();
    assert!(err.contains("missing"));

    let pushed = r#"{"story":{"id":"n"}}"#;
    assert_eq!(push_outcome(m.respond(SyncRequest::push_story(token, pushed.to_string()))), Ok(()));
    assert_eq!(m.received_stories(), vec![pushed.to_string()]);
}

#[test]
fn client_outcomes_for_mismatched_answers() {
    let unexpected = "Unexpected response type".to_string();
    let data = SyncResponse::StoryData { data: "d".to_string() };
    assert_eq!(connect_outcome(data.clone()).unwrap_err(), unexpected);
    assert_eq!(push_outcome(data).unwrap_err(), unexpected);
    let ok = SyncResponse::Success { message: "m".to_string() };
    assert_eq!(pull_outcome(ok.clone()).unwrap_err(), unexpected);
    assert_eq!(connect_outcome(ok).unwrap_err(), unexpected);
    let list = SyncResponse::StoriesList { stories: vec![] };
    assert_eq!(pull_outcome(list.clone()).unwrap_err(), unexpected);
    assert_eq!(push_outcome(list).unwrap_err(), unexpected);
    let err = SyncResponse::Error { message: "boom".to_string() };
    assert_eq!(connect_outcome(err.clone()).unwrap_err(), "boom");
    assert_eq!(pull_outcome(err.clone()).unwrap_err(), "boom");
    assert_eq!(push_outcome(err).unwrap_err(), "boom");
}

#[test]
fn client_timeouts_and_messages() {
    assert_eq!(timeout_secs(&SyncAction::ListStories), 10);
    assert_eq!(timeout_secs(&SyncAction::PullStory { story_id: "a".to_string() }), 30);
    assert_eq!(timeout_secs(&SyncAction::PushStory { story_data: "a".to_string() }), 30);
    assert_eq!(LIST_TIMEOUT_SECS, 10);
    assert_eq!(TRANSFER_TIMEOUT_SECS, 30);
    assert_eq!(connection_failed("refused"), "Connection failed: refused");
    assert_eq!(invalid_response("eof"), "Invalid response: eof");
}

#[test]
fn token_is_hyphenated_uuid() {
    let t = new_token();
    assert_eq!(t.chars().count(), TOKEN_LEN);
    assert_eq!(t.matches('-').count(), 4);
    assert_eq!(&t[14..15], "4");
    for (i, c) in t.chars().enumerate() {
        if [8, 13, 18, 23].contains(&i) {
            assert_eq!(c, '-');
        } else {
            assert!(c.is_ascii_digit() || ('a'..='f').contains(&c));
        }
    }
    assert!("89ab".contains(&t[19..20]));
}

#[test]
fn server_info_encodes_png_as_base64() {
    let info = SyncServerInfo::new("10.0.0.2".to_string(), 4242, "tok".to_string(), &b"hello".to_vec());
    assert_eq!(info.qr_code_base64, "aGVsbG8=");
    assert_eq!(info.ip, "10.0.0.2");
    assert_eq!(info.port, 4242);
    assert_eq!(info.token, "tok");
    let empty = SyncServerInfo::new(String::new(), 0, String::new(), &Vec::new());
    assert_eq!(empty.qr_code_base64, "");
}

#[test]
fn pairing_data_fields() {
    let q = QrCodeData::new("192.168.1.5".to_string(), 8080, "abc".to_string());
    assert_eq!(q.ip, "192.168.1.5");
    assert_eq!(q.port, 8080);
    assert_eq!(q.token, "abc");
}

#[test]
fn preview_duplicate_is_equal() {
    let p = SyncStoryPreview {
        id: "i".to_string(),
        title: "T".to_string(),
        genre: Some("g".to_string()),
        updated_at: -5,
        entry_count: 2,
    };
    let d = p.duplicate();
    assert_eq!((d.id, d.title, d.genre, d.updated_at, d.entry_count), (p.id, p.title, p.genre, p.updated_at, p.entry_count));
}

#[test]
fn pairing_code_is_png() {
    let png = generate_qr_code(r#"{"ip":"192.168.1.5","port":8080,"token":"abc"}"#).unwrap();
    assert_eq!(&png[..8], &[0x89, b'P', b'N', b'G', 0x0d, 0x0a, 0x1a, 0x0a]);
}

#[test]
fn pairing_code_rejects_oversized_text() {
    let text = "x".repeat(5000);
    let e = generate_qr_code(&text).unwrap_err();
    assert!(e.starts_with("Failed to create QR code: "));
    assert!(e.len() > "Failed to create QR code: ".len());
}

#[test]
fn preview_of_non_object_documents() {
    assert_eq!(parse_story_preview("[1,2]").unwrap_err(), "Missing 'story' field in export");
    assert_eq!(parse_story_preview("42").unwrap_err(), "Missing 'story' field in export");
    let p = parse_story_preview(r#"{"story":5,"entries":{"a":1}}"#).unwrap();
    assert_eq!((p.id.as_str(), p.title.as_str(), p.entry_count), ("", "Untitled", 0));
}

#[test]
fn preview_of_fixed_export() {
    let p = parse_story_preview(r#"{"story":{"id":"a","title":"Foo"},"entries":[{},{},{}]}"#).unwrap();
    assert_eq!((p.id.as_str(), p.title.as_str(), p.genre, p.updated_at, p.entry_count), ("a", "Foo", None, 0, 3));
}

#[test]
fn pairing_code_depends_on_data_alone() {
    let a = generate_qr_code("same text").unwrap();
    let b = generate_qr_code("same text").unwrap();
    assert_eq!(a, b);
    assert_ne!(a, generate_qr_code("other text").unwrap());
}
