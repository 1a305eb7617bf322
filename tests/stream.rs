use yuanbao_chat2api::pipeline::{Phase, StreamInput, StreamState};
use yuanbao_chat2api::stream::{
    classify_fields, classify_frame, ChatCompletionEvent, ChatCompletionMessageType, Frame,
    FrameFields,
};

fn frame(event: &str, data: &str) -> StreamInput {
    StreamInput::Frame(Frame { event: event.to_string(), data: data.to_string() })
}

fn describe(e: &ChatCompletionEvent) -> String {
    match e {
        ChatCompletionEvent::Message(m) => match m.kind {
            ChatCompletionMessageType::Think => format!("think:{}", m.text),
            ChatCompletionMessageType::Msg => format!("answer:{}", m.text),
        },
        ChatCompletionEvent::Error(e) => format!("error:{}", e),
        ChatCompletionEvent::Finish(f) => format!("finish:{}", f),
    }
}

fn run(inputs: Vec<StreamInput>) -> Vec<String> {
    StreamState::run(&inputs).iter().map(describe).collect()
}

#[test]
fn scripted_upstream_end_to_end() {
    let events = run(vec![
        StreamInput::Open,
        frame("message", r#"{"type":"think","content":"Let"}"#),
        frame("message", r#"{"type":"think","content":" me think"}"#),
        frame("message", r#"{"type":"text","msg":"42"}"#),
        frame("message", r#"{"stopReason":"length"}"#),
        StreamInput::Ended,
    ]);
    assert_eq!(events, vec!["think:Let", "think: me think", "answer:42", "finish:length"]);
}

#[test]
fn finish_defaults_to_stop_and_is_last() {
    let events = run(vec![
        frame("message", r#"{"type":"text","msg":"a"}"#),
        StreamInput::Ended,
        frame("message", r#"{"type":"text","msg":"late"}"#),
        StreamInput::Ended,
    ]);
    assert_eq!(events, vec!["answer:a", "finish:stop"]);
}

#[test]
fn cancellation_stops_without_finish() {
    let events = run(vec![
        frame("message", r#"{"type":"think","content":"x"}"#),
        StreamInput::Cancelled,
        frame("message", r#"{"type":"text","msg":"never"}"#),
        StreamInput::Ended,
    ]);
    assert_eq!(events, vec!["think:x"]);
    let mut state = StreamState::new();
    assert!(state.step(&StreamInput::Cancelled).is_none());
    assert_eq!(state.phase(), Phase::Cancelled);
    assert!(!state.is_streaming());
    assert!(state.step(&StreamInput::Ended).is_none());
}

#[test]
fn transport_error_is_reported_and_stream_goes_on() {
    let events = run(vec![
        StreamInput::Failure("connection reset".to_string()),
        frame("message", r#"{"type":"text","msg":"b"}"#),
        StreamInput::Ended,
    ]);
    assert_eq!(events, vec!["error:Error on stream: connection reset", "answer:b", "finish:stop"]);
}

#[test]
fn empty_think_dropped_empty_text_kept() {
    let events = run(vec![
        frame("message", r#"{"type":"think","content":""}"#),
        frame("message", r#"{"type":"think"}"#),
        frame("message", r#"{"type":"text","msg":""}"#),
        frame("message", r#"{"type":"text"}"#),
    ]);
    assert_eq!(events, vec!["answer:", "answer:"]);
}

#[test]
fn other_frames_are_dropped_unread() {
    let mut reason = "stop".to_string();
    let f = Frame { event: "heartbeat".to_string(), data: r#"{"stopReason":"length"}"#.to_string() };
    assert!(classify_frame(&f, &mut reason).is_none());
    assert_eq!(reason, "stop");
    let events = run(vec![
        frame("close", r#"{"stopReason":"length"}"#),
        frame("", r#"{"type":"text","msg":"x"}"#),
        StreamInput::Ended,
    ]);
    assert_eq!(events, vec!["finish:stop"]);
}

#[test]
fn malformed_payload_is_dropped() {
    let mut reason = "stop".to_string();
    let f = Frame { event: "message".to_string(), data: "{not json".to_string() };
    assert!(classify_frame(&f, &mut reason).is_none());
    assert_eq!(reason, "stop");
    let f = Frame { event: "message".to_string(), data: "[1,2]".to_string() };
    assert!(classify_frame(&f, &mut reason).is_none());
}

#[test]
fn status_frame_updates_finish_reason() {
    let mut reason = "stop".to_string();
    let f = Frame { event: "message".to_string(), data: r#"{"type":"meta","stopReason":"length"}"#.to_string() };
    assert!(classify_frame(&f, &mut reason).is_none());
    assert_eq!(reason, "length");
    let f = Frame { event: "message".to_string(), data: r#"{"stopReason":""}"#.to_string() };
    assert!(classify_frame(&f, &mut reason).is_none());
    assert_eq!(reason, "length");
}

#[test]
fn classify_fields_by_kind() {
    let mut reason = "stop".to_string();
    let think = FrameFields {
        kind: Some("think".to_string()),
        content: Some("hm".to_string()),
        msg: Some("ignored".to_string()),
        stop_reason: None,
    };
    let e = classify_fields(&think, &mut reason).unwrap();
    assert_eq!(describe(&e), "think:hm");
    let status = FrameFields { kind: None, content: None, msg: None, stop_reason: Some("x".to_string()) };
    assert!(classify_fields(&status, &mut reason).is_none());
    assert_eq!(reason, "x");
}
