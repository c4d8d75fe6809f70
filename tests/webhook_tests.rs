use hook_stream::cli::{Args, WebhookFormat};
use hook_stream::message::StreamMessage;
use hook_stream::webhook::{
    create_payload, send_buffered_lines, send_message, send_payload, Delivery, SenderEvent,
    WebhookSender,
};
use serde_json::Value;

fn text_object(text: &str) -> Value {
    let mut map = serde_json::Map::new();
    map.insert("text".to_string(), Value::String(text.to_string()));
    Value::Object(map)
}

fn mock_args(dry_run: bool) -> Args {
    Args {
        webhook_url: Some("http://127.0.0.1:9/".to_string()),
        dry_run,
        command: vec!["echo".to_string(), "test".to_string()],
        ..Args::default()
    }
}

fn line(text: &str) -> SenderEvent {
    SenderEvent::Received(StreamMessage::Line(text.to_string()))
}

#[test]
fn test_create_payload_slack() {
    let message = "hello";
    let payload = create_payload(message, &WebhookFormat::Slack);
    let value: Value = serde_json::from_str(&payload).unwrap();
    assert_eq!(value, text_object("hello"));
}

#[test]
fn test_create_payload_google_chat() {
    let message = "world";
    let payload = create_payload(message, &WebhookFormat::GoogleChat);
    let value: Value = serde_json::from_str(&payload).unwrap();
    assert_eq!(value, text_object("world"));
}

#[test]
fn payload_escapes_quotes_and_newlines() {
    let payload = create_payload("a \"b\"\nc", &WebhookFormat::Slack);
    assert_eq!(payload, "{\"text\":\"a \\\"b\\\"\\nc\"}");
}

#[test]
fn test_send_payload_dry_run() {
    let payload = "{\"text\":\"test\"}";
    let url = Some("http://127.0.0.1:9/".to_string());
    match send_payload(payload, &url, true) {
        Delivery::Print(line) => {
            assert_eq!(line, "[DRY RUN] Would send: {\"text\":\"test\"}")
        }
        other => panic!("expected no network delivery, got {:?}", other),
    }
}

#[test]
fn send_payload_posts_to_endpoint() {
    let url = Some("http://localhost/hook".to_string());
    match send_payload("{}", &url, false) {
        Delivery::Post { url, body } => {
            assert_eq!(url, "http://localhost/hook");
            assert_eq!(body, "{}");
        }
        other => panic!("expected a post, got {:?}", other),
    }
    assert!(matches!(send_payload("{}", &None, false), Delivery::Skip));
}

#[test]
fn send_message_in_dry_run_prints_payload() {
    let args = mock_args(true);
    match send_message(&args, "hi") {
        Delivery::Print(line) => assert_eq!(line, "[DRY RUN] Would send: {\"text\":\"hi\"}"),
        other => panic!("expected a print, got {:?}", other),
    }
}

#[test]
fn test_send_buffered_lines() {
    let mut buffer = vec!["line1".to_string(), "line2".to_string()];
    let message = send_buffered_lines(&None, &mut buffer);
    assert_eq!(message, Some("line1\nline2".to_string()));
    assert!(buffer.is_empty());
}

#[test]
fn send_buffered_lines_with_title() {
    let mut buffer = vec!["x".to_string()];
    let message = send_buffered_lines(&Some("T".to_string()), &mut buffer);
    assert_eq!(message, Some("[T] x".to_string()));
}

#[test]
fn flushing_an_empty_batch_delivers_nothing() {
    let mut buffer: Vec<String> = Vec::new();
    assert_eq!(send_buffered_lines(&None, &mut buffer), None);
    let mut sender = WebhookSender::new(&mock_args(false));
    let step = sender.step(SenderEvent::TimedOut);
    assert_eq!(step.delivery, None);
    assert!(!step.finished);
    let step = sender.step(SenderEvent::Received(StreamMessage::Flush));
    assert_eq!(step.delivery, None);
}

#[test]
fn test_run_webhook_sender_sends_on_timeout() {
    let mut sender = WebhookSender::new(&mock_args(false));
    let step = sender.step(line("test"));
    assert_eq!(step.delivery, None);
    let step = sender.step(SenderEvent::TimedOut);
    assert_eq!(step.delivery, Some("test".to_string()));
    assert!(!step.finished);
}

#[test]
fn test_run_webhook_sender_sends_on_buffer_full() {
    let args = mock_args(false);
    let mut sender = WebhookSender::new(&args);
    let mut deliveries: Vec<String> = Vec::new();
    for i in 0..args.buffer_size {
        let step = sender.step(line(&format!("line {}", i)));
        if let Some(d) = step.delivery {
            deliveries.push(d);
        }
    }
    assert_eq!(deliveries.len(), 1);
    let expected: Vec<String> = (0..10).map(|i| format!("line {}", i)).collect();
    assert_eq!(deliveries[0], expected.join("\n"));
}

#[test]
fn explicit_flush_keeps_the_loop_going() {
    let mut sender = WebhookSender::new(&mock_args(false));
    sender.step(line("a"));
    let step = sender.step(SenderEvent::Received(StreamMessage::Flush));
    assert_eq!(step.delivery, Some("a".to_string()));
    assert!(!step.finished);
}

#[test]
fn size_triggered_flushes_then_terminal_remainder() {
    let args = Args {
        buffer_size: 3,
        ..mock_args(false)
    };
    let mut sender = WebhookSender::new(&args);
    let mut deliveries: Vec<String> = Vec::new();
    for i in 0..7 {
        let step = sender.step(line(&i.to_string()));
        assert!(!step.finished);
        if let Some(d) = step.delivery {
            deliveries.push(d);
        }
    }
    assert_eq!(deliveries, vec!["0\n1\n2".to_string(), "3\n4\n5".to_string()]);
    let step = sender.step(SenderEvent::Received(StreamMessage::CommandFinished));
    assert_eq!(step.delivery, Some("6".to_string()));
    assert!(step.finished);
}

#[test]
fn no_output_closes_cleanly() {
    let mut sender = WebhookSender::new(&mock_args(false));
    let step = sender.step(SenderEvent::Closed);
    assert_eq!(step.delivery, None);
    assert!(step.finished);
}

#[test]
fn title_prefixes_each_batch() {
    let args = Args {
        title: Some("build".to_string()),
        ..mock_args(false)
    };
    let mut sender = WebhookSender::new(&args);
    sender.step(line("a"));
    sender.step(line("b"));
    let step = sender.step(SenderEvent::Closed);
    assert_eq!(step.delivery, Some("[build] a\nb".to_string()));
}
