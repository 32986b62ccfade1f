use warp_tasks_mcp::batch::{compressed_flush, is_oversized, assemble, buffer_response, frame, plan_flush, serialized_line, slot_line, Batch, Flush, Outcome, ReadEvent};
use warp_tasks_mcp::cache::ResponseBuffer;

fn value(text: &str) -> serde_json::Value {
    serde_json::from_str(text).unwrap()
}

#[test]
fn lines_join_the_batch_trimmed() {
    let mut batch = Batch::new();
    assert!(batch.accept(ReadEvent::Line("  {\"a\":1}\n".to_string())));
    assert!(batch.accept(ReadEvent::Line("\n".to_string())));
    assert!(batch.accept(ReadEvent::Line("x\r\n".to_string())));
    assert_eq!(batch.lines, vec!["{\"a\":1}".to_string(), "x".to_string()]);
    assert!(!batch.ended);
    assert!(!batch.finished());
}

#[test]
fn oversized_line_is_discarded() {
    let mut batch = Batch::new();
    let large = "x".repeat(10 * 1024 * 1024 + 1);
    assert!(batch.accept(ReadEvent::Line(large)));
    assert!(batch.lines.is_empty());
    assert!(is_oversized(&"x".repeat(10 * 1024 * 1024 + 1)));
    let largest = "x".repeat(10 * 1024 * 1024);
    assert!(!is_oversized(&largest));
    assert!(batch.accept(ReadEvent::Line(largest)));
    assert_eq!(batch.lines.len(), 1);
}

#[test]
fn collecting_stops_when_the_batch_is_full() {
    let mut batch = Batch::new();
    for i in 0..99 {
        assert!(!batch.is_full());
        assert!(batch.accept(ReadEvent::Line(format!("r{}\n", i))));
    }
    assert!(!batch.accept(ReadEvent::Line("last\n".to_string())));
    assert!(batch.is_full());
    assert_eq!(batch.lines.len(), 100);
    assert_eq!(batch.lines[99], "last");
}

#[test]
fn timeout_ends_the_round_but_not_the_input() {
    let mut batch = Batch::new();
    assert!(batch.accept(ReadEvent::Line("a\n".to_string())));
    assert!(!batch.accept(ReadEvent::Timeout));
    assert!(!batch.ended);
    assert_eq!(batch.take(), vec!["a".to_string()]);
    assert!(!batch.finished());
}

#[test]
fn end_of_stream_ends_the_loop_once_the_batch_is_processed() {
    let mut batch = Batch::new();
    assert!(batch.accept(ReadEvent::Line("a\n".to_string())));
    assert!(!batch.accept(ReadEvent::EndOfStream));
    assert!(batch.ended);
    assert!(!batch.finished());
    assert_eq!(batch.take(), vec!["a".to_string()]);
    assert!(batch.finished());
    let mut failed = Batch::new();
    assert!(!failed.accept(ReadEvent::Failed));
    assert!(failed.finished());
}

#[test]
fn responses_keep_the_order_of_their_requests() {
    let outcomes = vec![
        Outcome::Response(value(r#"{"id":1}"#)),
        Outcome::Failed("task 2 panicked".to_string()),
        Outcome::Silent,
        Outcome::Response(value(r#"{"id":4}"#)),
    ];
    let lines = assemble(&outcomes);
    assert_eq!(
        lines,
        vec![
            r#"{"id":1}"#.to_string(),
            r#"{"error":{"code":-32603,"message":"Internal error: task 2 panicked"},"jsonrpc":"2.0"}"#
                .to_string(),
            r#"{"jsonrpc":"2.0","result":null}"#.to_string(),
            r#"{"id":4}"#.to_string(),
        ]
    );
    assert!(assemble(&vec![]).is_empty());
}

#[test]
fn slot_line_is_the_compact_text_of_the_response() {
    let v = value(r#"{ "b" : [1, 2.5, "x"], "a" : null }"#);
    let line = slot_line(&Outcome::Response(v.clone()));
    assert_eq!(line, serde_json::to_string(&v).unwrap());
    assert_eq!(value(&line), v);
}

#[test]
fn response_that_cannot_be_serialized_gives_the_internal_error() {
    assert_eq!(serialized_line(Some("{}".to_string())), "{}");
    assert_eq!(
        value(&serialized_line(None)),
        value(r#"{"jsonrpc":"2.0","error":{"code":-32603,"message":"Internal error"}}"#)
    );
}

#[test]
fn frame_ends_each_line_with_a_line_feed() {
    assert_eq!(frame(&vec![]), Vec::<u8>::new());
    assert_eq!(frame(&vec!["ab".to_string(), "\u{e9}".to_string()]), vec![b'a', b'b', b'\n', 0xc3, 0xa9, b'\n']);
}

#[test]
fn small_flush_is_written_line_by_line() {
    let lines: Vec<String> = (0..100).map(|i| format!("line {}", i)).collect();
    match plan_flush(lines.clone()) {
        Ok(Flush::Lines(out)) => assert_eq!(out, lines),
        _ => panic!("expected lines"),
    }
    match plan_flush(vec![]) {
        Ok(Flush::Lines(out)) => assert!(out.is_empty()),
        _ => panic!("expected lines"),
    }
}

#[test]
fn large_flush_is_one_gzip_stream_of_the_frame() {
    let lines: Vec<String> = (0..101).map(|i| format!("line {}", i)).collect();
    match plan_flush(lines.clone()) {
        Ok(Flush::Compressed(bytes)) => {
            let mut decoder = flate2::read::GzDecoder::new(&bytes[..]);
            let mut plain = Vec::new();
            std::io::Read::read_to_end(&mut decoder, &mut plain).unwrap();
            assert_eq!(plain, frame(&lines));
            assert_ne!(bytes, frame(&lines));
        }
        _ => panic!("expected a compressed stream"),
    }
}

#[test]
fn buffering_hands_out_fifty_responses_at_once() {
    let mut buffer = ResponseBuffer::new(10 * 1024 * 1024);
    let mut written: Vec<Vec<String>> = Vec::new();
    for i in 0..120 {
        written.extend(buffer_response(&mut buffer, format!("r{}", i)));
    }
    assert_eq!(written.len(), 2);
    assert_eq!(written[0].len(), 50);
    assert_eq!(written[0][0], "r0");
    assert_eq!(written[1][0], "r50");
    assert_eq!(written[1][49], "r99");
    assert_eq!(buffer.buffer.len(), 20);
    assert_eq!(buffer.buffer[0], "r100");
}

#[test]
fn buffering_loses_no_response_when_the_buffer_is_full() {
    let mut buffer = ResponseBuffer::new(10);
    assert!(buffer_response(&mut buffer, "abcd".to_string()).is_empty());
    let due = buffer_response(&mut buffer, "efghijk".to_string());
    assert_eq!(due, vec![vec!["abcd".to_string()], vec!["efghijk".to_string()]]);
    assert!(buffer.buffer.is_empty());
    assert!(buffer_response(&mut buffer, "ab".to_string()).is_empty());
    let due = buffer_response(&mut buffer, "0123456789ABC".to_string());
    assert_eq!(due, vec![vec!["ab".to_string()], vec!["0123456789ABC".to_string()]]);
    assert!(buffer.buffer.is_empty());
    assert_eq!(buffer.current_size, 0);
}

#[test]
fn compressed_flush_carries_the_stream_or_fails() {
    match compressed_flush(Some(vec![1, 2, 3])) {
        Ok(Flush::Compressed(bytes)) => assert_eq!(bytes, vec![1, 2, 3]),
        _ => panic!("expected a compressed stream"),
    }
    assert!(compressed_flush(None).is_err());
}

#[test]
fn every_response_that_can_be_serialized_gets_its_own_text() {
    let outcomes: Vec<Outcome> =
        (0..30).map(|i| Outcome::Response(value(&format!(r#"{{"jsonrpc":"2.0","id":{},"result":{{}}}}"#, i)))).collect();
    let lines = assemble(&outcomes);
    assert_eq!(lines.len(), 30);
    for (i, line) in lines.iter().enumerate() {
        assert_eq!(value(line)["id"], i);
        assert!(value(line).get("error").is_none());
    }
}

#[test]
fn failed_slot_leaves_the_other_slots_as_they_are() {
    let outcomes = vec![
        Outcome::Response(value(r#"{"jsonrpc":"2.0","id":1,"error":{"code":-32601,"message":"Method not found"}}"#)),
        Outcome::Failed("panicked".to_string()),
        Outcome::Response(value(r#"{"jsonrpc":"2.0","id":2,"error":{"code":-32600,"message":"Invalid Request"}}"#)),
    ];
    let lines = assemble(&outcomes);
    assert_eq!(lines.len(), 3);
    assert_eq!(value(&lines[0])["id"], 1);
    assert_eq!(value(&lines[0])["error"]["code"], -32601);
    assert_eq!(value(&lines[1])["error"]["code"], -32603);
    assert_eq!(value(&lines[1])["error"]["message"], "Internal error: panicked");
    assert_eq!(value(&lines[2])["id"], 2);
    assert_eq!(value(&lines[2])["error"]["code"], -32600);
}

#[test]
fn large_flush_never_falls_back_to_lines_or_fails() {
    for n in [101usize, 150, 1000] {
        let lines: Vec<String> = (0..n).map(|i| format!("{{\"id\":{}}}", i)).collect();
        assert!(matches!(plan_flush(lines), Ok(Flush::Compressed(_))));
    }
}
