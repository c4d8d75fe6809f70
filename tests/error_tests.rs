use hook_stream::app::validate_args;
use hook_stream::cli::Args;
use hook_stream::error::AppError;

#[test]
fn test_missing_webhook_url_error() {
    let error = AppError::MissingWebhookUrl;
    assert_eq!(
        error.message(),
        "Missing Webhook URL: Set --webhook-url or the WEBHOOK_URL environment variable."
    );
}

#[test]
fn test_run_missing_webhook_url() {
    let args = Args {
        command: vec!["echo".to_string(), "hello".to_string()],
        ..Args::default()
    };
    let result = validate_args(&args);
    assert!(result.is_err());
    match result.err().unwrap() {
        AppError::MissingWebhookUrl => {}
    }
}

#[test]
fn validate_accepts_endpoint_or_dry_run() {
    let with_url = Args {
        webhook_url: Some("http://localhost".to_string()),
        ..Args::default()
    };
    assert_eq!(validate_args(&with_url), Ok(()));
    let dry = Args {
        dry_run: true,
        ..Args::default()
    };
    assert_eq!(validate_args(&dry), Ok(()));
}
