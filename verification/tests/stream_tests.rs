use mini_claude_code::stream::{
    forward_step, parse_sse_data, SseBuffer, SseData, StreamInput, StreamOutput,
};
use mini_claude_code::types::SseEvent;

#[test]
fn test_parse_done_signal() {
    let message = "data: [DONE]";
    assert_eq!(parse_sse_data(message), Some(SseData::Done));
}

#[test]
fn test_skip_comment_lines() {
    let result = parse_sse_data(": ping");
    assert!(result.is_none());
}

#[test]
fn data_payloads() {
    let message = "event: message_stop\ndata: {\"type\":\"message_stop\"}";
    assert_eq!(
        parse_sse_data(message),
        Some(SseData::Json("{\"type\":\"message_stop\"}".to_string()))
    );
    assert_eq!(
        parse_sse_data("data: first\r\ndata: second\r\n"),
        Some(SseData::Json("second".to_string()))
    );
    assert_eq!(parse_sse_data("data:no-space"), None);
    assert_eq!(parse_sse_data(""), None);
    assert_eq!(parse_sse_data("data: "), Some(SseData::Json(String::new())));
}

#[test]
fn buffer_cuts_messages_at_blank_lines() {
    let mut buf = SseBuffer::new();
    buf.push_text("event: a\ndata: 1\n\nevent: b\n");
    assert_eq!(buf.next_message(), Some("event: a\ndata: 1".to_string()));
    assert_eq!(buf.next_message(), None);
    buf.push_text("data: 2\n\n\n\n");
    assert_eq!(buf.next_message(), Some("event: b\ndata: 2".to_string()));
    assert_eq!(buf.next_message(), Some(String::new()));
    assert_eq!(buf.next_message(), None);
}

#[test]
fn messages_do_not_depend_on_chunking() {
    let text = "event: a\ndata: 1\n\nevent: b\ndata: 2\n\n\n\ndata: tail";
    let mut whole = SseBuffer::new();
    whole.push_text(text);
    let all = whole.take_messages();
    assert_eq!(all, vec!["event: a\ndata: 1", "event: b\ndata: 2", ""]);
    for cut in 0..text.len() {
        let mut buf = SseBuffer::new();
        let mut got = Vec::new();
        buf.push_text(&text[..cut]);
        got.extend(buf.take_messages());
        buf.push_text(&text[cut..]);
        got.extend(buf.take_messages());
        assert_eq!(got, all, "cut at {}", cut);
        buf.push_text("\n\n");
        assert_eq!(buf.take_messages(), vec!["data: tail"]);
    }
}

#[test]
fn text_delta_message_data() {
    let message = "event: content_block_delta\ndata: {\"type\":\"content_block_delta\",\"index\":0,\"delta\":{\"type\":\"text_delta\",\"text\":\"Hello\"}}";
    assert_eq!(
        parse_sse_data(message),
        Some(SseData::Json(
            "{\"type\":\"content_block_delta\",\"index\":0,\"delta\":{\"type\":\"text_delta\",\"text\":\"Hello\"}}"
                .to_string()
        ))
    );
}

#[test]
fn message_stop_message_data() {
    let message = "event: message_stop\ndata: {\"type\":\"message_stop\"}";
    assert_eq!(parse_sse_data(message), Some(SseData::Json("{\"type\":\"message_stop\"}".to_string())));
}

#[test]
fn ping_message_data() {
    let message = "event: ping\ndata: {\"type\":\"ping\"}";
    assert_eq!(parse_sse_data(message), Some(SseData::Json("{\"type\":\"ping\"}".to_string())));
}

#[test]
fn forwarding_stops_at_the_first_error_and_ends_with_done() {
    let (out, stop) = forward_step(StreamInput::Message(None));
    assert!(matches!(out, StreamOutput::Nothing) && !stop);
    let (out, stop) = forward_step(StreamInput::Message(Some(Ok(SseEvent::Done))));
    assert!(matches!(out, StreamOutput::Event(SseEvent::Done)) && !stop);
    let (out, stop) = forward_step(StreamInput::Message(Some(Err("bad data".to_string()))));
    assert!(matches!(out, StreamOutput::Error(ref m) if m == "bad data") && stop);
    let (out, stop) = forward_step(StreamInput::ReadFailed("reset".to_string()));
    assert!(matches!(out, StreamOutput::Error(ref m) if m == "Stream error: reset") && stop);
    let (out, stop) = forward_step(StreamInput::Ended);
    assert!(matches!(out, StreamOutput::Event(SseEvent::Done)) && stop);
}
