use tts_pipeline::adapter::{AdapterAction, StreamAdapter};
use tts_pipeline::pipeline::{prepare, start};
use tts_pipeline::request::SpeechRequest;
use tts_pipeline::session::{decode_text, decode_token, run_events, GenerationEvent,
    GenerationSession, SessionState, UsageStats, CHUNK_LEN};

fn submitted_session(input: &str) -> GenerationSession {
    let req = SpeechRequest {
        input: input.to_string(),
        voice: "tara".to_string(),
        instructions: None,
        model: None,
    };
    start(prepare(&req).unwrap())
}

fn usage() -> UsageStats {
    UsageStats { prompt_tokens: 12, completion_tokens: 3 }
}

#[test]
fn decoder_marks_each_token() {
    let chunks = decode_token(300);
    assert_eq!(chunks.len(), 1);
    assert_eq!(chunks[0].data.len(), CHUNK_LEN);
    assert!(chunks[0].data.iter().all(|b| *b == 44));
}

#[test]
fn decoder_flushes_final_text() {
    assert_eq!(decode_text("").len(), 0);
    let chunks = decode_text("spoken text");
    assert_eq!(chunks.len(), 1);
    assert_eq!(chunks[0].data.len(), CHUNK_LEN);
    assert!(chunks[0].data.iter().all(|b| *b == 0));
}

#[test]
fn completed_without_partial_tokens_ends_cleanly() {
    let mut session = submitted_session("hello");
    assert_eq!(session.state, SessionState::Submitted);
    let chunks = session.on_event(&GenerationEvent::Completed("hello audio".to_string(), usage()));
    assert_eq!(session.state, SessionState::Completed);
    assert_eq!(chunks.len(), 1);
    assert!(!chunks[0].data.is_empty());
}

#[test]
fn chunk_order_follows_event_order() {
    let mut session = submitted_session("hello");
    let events = vec![
        GenerationEvent::PartialToken(1),
        GenerationEvent::PartialToken(2),
        GenerationEvent::PartialToken(3),
        GenerationEvent::Completed(String::new(), usage()),
    ];
    let chunks = run_events(&mut session, &events);
    assert_eq!(chunks.len(), 3);
    assert!(chunks[0].data.iter().all(|b| *b == 1));
    assert!(chunks[1].data.iter().all(|b| *b == 2));
    assert!(chunks[2].data.iter().all(|b| *b == 3));
    assert_eq!(session.state, SessionState::Completed);
}

#[test]
fn failure_discards_unflushed_audio() {
    let mut session = submitted_session("hello");
    let events = vec![
        GenerationEvent::PartialToken(5),
        GenerationEvent::Failed("backend fault".to_string()),
    ];
    let chunks = run_events(&mut session, &events);
    assert_eq!(chunks.len(), 1);
    assert!(chunks[0].data.iter().all(|b| *b == 5));
    assert_eq!(session.state, SessionState::Failed);
}

#[test]
fn events_after_the_terminal_one_are_not_consumed() {
    let mut session = submitted_session("hello");
    let events = vec![
        GenerationEvent::Completed(String::new(), usage()),
        GenerationEvent::PartialToken(9),
    ];
    let chunks = run_events(&mut session, &events);
    assert_eq!(chunks.len(), 0);
    assert_eq!(session.state, SessionState::Completed);
}

#[test]
fn headers_are_finalized_before_any_chunk() {
    let mut adapter = StreamAdapter::new(submitted_session("hello"));
    let head = adapter.begin();
    assert_eq!(head.status, 200);
    assert_eq!(head.content_type, "audio/pcm");
    assert_eq!(head.transfer_encoding, "chunked");
    assert_eq!(adapter.buffered_len(), 0);
}

#[test]
fn no_readiness_means_nothing_buffered() {
    let mut adapter = StreamAdapter::new(submitted_session("hello"));
    let _head = adapter.begin();
    // The transport never signals readiness: the adapter holds no decoded
    // audio and has no way to pull an event.
    assert_eq!(adapter.buffered_len(), 0);
}

#[test]
fn failure_after_two_tokens_aborts_after_both_reach_transport() {
    let mut adapter = StreamAdapter::new(submitted_session("hello"));
    let head = adapter.begin();
    assert_eq!(head.status, 200);

    assert!(matches!(adapter.on_ready(), AdapterAction::RequestEvent));
    adapter.on_event(&GenerationEvent::PartialToken(7));
    let first = match adapter.on_ready() {
        AdapterAction::Write(chunk) => chunk,
        _ => panic!("expected a write"),
    };
    assert!(first.data.iter().all(|b| *b == 7));

    assert!(matches!(adapter.on_ready(), AdapterAction::RequestEvent));
    adapter.on_event(&GenerationEvent::PartialToken(9));
    let second = match adapter.on_ready() {
        AdapterAction::Write(chunk) => chunk,
        _ => panic!("expected a write"),
    };
    assert!(second.data.iter().all(|b| *b == 9));

    assert!(matches!(adapter.on_ready(), AdapterAction::RequestEvent));
    adapter.on_event(&GenerationEvent::Failed("backend fault".to_string()));
    assert!(matches!(adapter.on_ready(), AdapterAction::Abort));
    // The status line went out before the fault and cannot change.
    assert_eq!(head.status, 200);
}

#[test]
fn synchronous_completion_drains_then_finishes() {
    let mut adapter = StreamAdapter::new(submitted_session("hello"));
    let _head = adapter.begin();
    assert!(matches!(adapter.on_ready(), AdapterAction::RequestEvent));
    adapter.on_event(&GenerationEvent::Completed("hello audio".to_string(), usage()));
    assert!(matches!(adapter.on_ready(), AdapterAction::Write(_)));
    assert!(matches!(adapter.on_ready(), AdapterAction::Finish));
}
