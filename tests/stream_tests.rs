use codex_core::aggregate::{AggStep, AggregationState};
use codex_core::error::DispatchError;
use codex_core::models::{ContentItem, Message, ResponseEvent, Role};
use codex_core::json::Json;
use codex_core::sse::{chunk_delta, decode_frame, decode_frames, decode_payload, DecodeStep, FrameInput};

fn data(s: &str) -> FrameInput {
    FrameInput::Data(s.to_string())
}

fn delta_text(ev: &Result<ResponseEvent, DispatchError>) -> Option<String> {
    match ev {
        Ok(ResponseEvent::OutputItemDone(m)) => {
            assert_eq!(m.role, Role::Assistant);
            assert_eq!(m.content.len(), 1);
            match &m.content[0] {
                ContentItem::OutputText { text } => Some(text.clone()),
                _ => None,
            }
        }
        _ => None,
    }
}

fn is_completed(ev: &Result<ResponseEvent, DispatchError>) -> bool {
    matches!(ev, Ok(ResponseEvent::Completed { response_id }) if response_id.is_empty())
}

fn hi_there() -> Vec<FrameInput> {
    vec![
        data(r#"{"choices":[{"delta":{"content":"Hi"}}]}"#),
        data(r#"{"choices":[{"delta":{"content":" there"}}]}"#),
        data("[DONE]"),
    ]
}

#[test]
fn deltas_then_done_decode_in_order() {
    let out = decode_frames(&hi_there());
    assert_eq!(out.len(), 3);
    assert_eq!(delta_text(&out[0]).as_deref(), Some("Hi"));
    assert_eq!(delta_text(&out[1]).as_deref(), Some(" there"));
    assert!(is_completed(&out[2]));
}

#[test]
fn idle_timeout_yields_one_error_and_stops() {
    let inputs = vec![
        data(r#"{"choices":[{"delta":{"content":"a"}}]}"#),
        FrameInput::IdleTimeout,
        data(r#"{"choices":[{"delta":{"content":"b"}}]}"#),
        FrameInput::Closed,
    ];
    let out = decode_frames(&inputs);
    assert_eq!(out.len(), 2);
    assert_eq!(delta_text(&out[0]).as_deref(), Some("a"));
    match &out[1] {
        Err(DispatchError::Stream(d)) => assert_eq!(d, "idle timeout waiting for SSE"),
        other => panic!("unexpected item {:?}", other),
    }
}

#[test]
fn malformed_frame_is_skipped() {
    let inputs = vec![
        data(r#"{"choices":[{"delta":{"content":"x"}}]}"#),
        data("not-json"),
        data(r#"{"choices":[{"delta":{"content":"y"}}]}"#),
    ];
    let out = decode_frames(&inputs);
    assert_eq!(out.len(), 2);
    assert_eq!(delta_text(&out[0]).as_deref(), Some("x"));
    assert_eq!(delta_text(&out[1]).as_deref(), Some("y"));
}

#[test]
fn clean_close_completes() {
    let out = decode_frames(&vec![FrameInput::Closed, data("[DONE]")]);
    assert_eq!(out.len(), 1);
    assert!(is_completed(&out[0]));
}

#[test]
fn read_error_becomes_stream_error() {
    let out = decode_frames(&vec![FrameInput::ReadError("broken pipe".to_string())]);
    assert_eq!(out.len(), 1);
    assert!(matches!(&out[0], Err(DispatchError::Stream(d)) if d == "broken pipe"));
}

#[test]
fn sentinel_is_trimmed() {
    assert!(matches!(decode_frame(&data("  [DONE] \n")), DecodeStep::Finish(Ok(_))));
    assert!(matches!(decode_frame(&data("[DONE]x")), DecodeStep::Skip));
}

#[test]
fn frames_without_a_string_delta_are_skipped() {
    for f in [
        r#"{"choices":[{"delta":{"role":"assistant"}}]}"#,
        r#"{"choices":[{"delta":{"content":null}}]}"#,
        r#"{"choices":[{"delta":{"content":5}}]}"#,
        r#"{"choices":[]}"#,
        r#"{"choices":{"0":{"delta":{"content":"no"}}}}"#,
        r#"[1,2,3]"#,
        "",
    ] {
        assert!(matches!(decode_frame(&data(f)), DecodeStep::Skip), "frame {f}");
    }
}

#[test]
fn delta_text_is_unescaped() {
    match decode_frame(&data(r#"{"choices":[{"delta":{"content":"a\"b\né"}}]}"#)) {
        DecodeStep::Emit(ev) => assert_eq!(delta_text(&Ok(ev)).as_deref(), Some("a\"b\né")),
        other => panic!("unexpected step {:?}", other),
    }
}

fn pull_all(items: Vec<Result<ResponseEvent, DispatchError>>) -> Vec<Result<ResponseEvent, DispatchError>> {
    let mut agg = AggregationState::new();
    let mut source = items.into_iter();
    let mut out = Vec::new();
    loop {
        if let Some(ev) = agg.take_pending() {
            out.push(Ok(ev));
            continue;
        }
        match agg.accept(source.next()) {
            AggStep::Pull => continue,
            AggStep::Yield(Some(x)) => out.push(x),
            AggStep::Yield(None) => break,
        }
    }
    out
}

#[test]
fn aggregation_collapses_a_turn() {
    let out = pull_all(decode_frames(&hi_there()));
    assert_eq!(out.len(), 2);
    assert_eq!(delta_text(&out[0]).as_deref(), Some("Hi there"));
    assert!(is_completed(&out[1]));
}

#[test]
fn aggregation_of_an_empty_turn_forwards_completed() {
    let out = pull_all(vec![Ok(ResponseEvent::Completed { response_id: "r1".to_string() })]);
    assert_eq!(out.len(), 1);
    assert!(matches!(&out[0], Ok(ResponseEvent::Completed { response_id }) if response_id == "r1"));
}

#[test]
fn aggregation_keeps_the_completion_id() {
    let items = vec![
        Ok(ResponseEvent::OutputItemDone(Message {
            role: Role::Assistant,
            content: vec![
                ContentItem::OutputText { text: "ab".to_string() },
                ContentItem::InputText { text: "ignored".to_string() },
                ContentItem::OutputText { text: "c".to_string() },
            ],
        })),
        Ok(ResponseEvent::Completed { response_id: "id-9".to_string() }),
    ];
    let out = pull_all(items);
    assert_eq!(out.len(), 2);
    assert_eq!(delta_text(&out[0]).as_deref(), Some("abc"));
    assert!(matches!(&out[1], Ok(ResponseEvent::Completed { response_id }) if response_id == "id-9"));
}

#[test]
fn aggregation_forwards_other_roles_and_errors() {
    let user = Message {
        role: Role::User,
        content: vec![ContentItem::InputText { text: "q".to_string() }],
    };
    let items = vec![
        Ok(ResponseEvent::OutputItemDone(Message {
            role: Role::Assistant,
            content: vec![ContentItem::OutputText { text: "a".to_string() }],
        })),
        Ok(ResponseEvent::OutputItemDone(user)),
        Err(DispatchError::Stream("boom".to_string())),
    ];
    let out = pull_all(items);
    assert_eq!(out.len(), 2);
    assert!(matches!(&out[0], Ok(ResponseEvent::OutputItemDone(m)) if m.role == Role::User));
    assert!(matches!(&out[1], Err(DispatchError::Stream(d)) if d == "boom"));
}

#[test]
fn aggregation_of_two_turns() {
    let mut items = decode_frames(&hi_there());
    items.extend(decode_frames(&vec![data(r#"{"choices":[{"delta":{"content":"again"}}]}"#), FrameInput::Closed]));
    let out = pull_all(items);
    assert_eq!(out.len(), 4);
    assert_eq!(delta_text(&out[0]).as_deref(), Some("Hi there"));
    assert!(is_completed(&out[1]));
    assert_eq!(delta_text(&out[2]).as_deref(), Some("again"));
    assert!(is_completed(&out[3]));
}

fn delta_doc(content: Json) -> Json {
    let delta = Json::Object(vec![("content".to_string(), content)]);
    let choice = Json::Object(vec![("delta".to_string(), delta)]);
    Json::Object(vec![("choices".to_string(), Json::Array(vec![choice]))])
}

#[test]
fn payload_decisions_on_documents() {
    let doc = delta_doc(Json::Str("Hi".to_string()));
    assert_eq!(chunk_delta(&doc).as_deref(), Some("Hi"));
    match decode_payload("x", Some(&doc)) {
        DecodeStep::Emit(ev) => assert_eq!(delta_text(&Ok(ev)).as_deref(), Some("Hi")),
        other => panic!("unexpected step {:?}", other),
    }
    assert!(matches!(decode_payload("[DONE]", Some(&doc)), DecodeStep::Finish(Ok(_))));
    assert!(matches!(decode_payload("[DONE]", None), DecodeStep::Finish(Ok(_))));
    assert!(matches!(decode_payload("x", None), DecodeStep::Skip));
    let doc = delta_doc(Json::Null);
    assert_eq!(chunk_delta(&doc), None);
    assert!(matches!(decode_payload("x", Some(&doc)), DecodeStep::Skip));
}

#[test]
fn unicode_white_space_around_the_sentinel() {
    assert!(matches!(decode_frame(&data("\u{3000}[DONE]\u{a0}")), DecodeStep::Finish(Ok(_))));
}
