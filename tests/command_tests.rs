use hook_stream::command::forward_line;
use hook_stream::message::StreamMessage;

#[test]
fn test_run_command_quiet_mode() {
    let forwarded = forward_line(true, "hello world".to_string());
    assert!(forwarded.is_none());
}

#[test]
fn forwards_line_when_not_quiet() {
    match forward_line(false, "error message".to_string()) {
        Some(StreamMessage::Line(s)) => assert_eq!(s, "error message"),
        _ => panic!("Expected a Line message"),
    }
}

#[test]
fn forwarded_lines_of_both_streams_match_echoed_lines() {
    let out = vec!["a".to_string(), "b".to_string()];
    let err = vec!["b".to_string(), "c".to_string()];
    let mut echoed: Vec<String> = Vec::new();
    let mut sent: Vec<String> = Vec::new();
    // One interleaving of the two streams.
    for line in [&out[0], &err[0], &out[1], &err[1]] {
        echoed.push(line.clone());
        if let Some(StreamMessage::Line(t)) = forward_line(false, line.clone()) {
            sent.push(t);
        }
    }
    echoed.sort();
    sent.sort();
    assert_eq!(echoed, sent);
}
