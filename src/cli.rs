//! The configuration of one invocation, as the command line gives it.
use vstd::prelude::*;

verus! {

/// The payload shape that the webhook expects.
#[derive(Clone, Copy, Debug, PartialEq, Eq, Structural)]
pub enum WebhookFormat {
    GoogleChat,
    Slack,
}

impl Default for WebhookFormat {
    fn default() -> (r: Self)
        ensures
            r == WebhookFormat::GoogleChat,
    {
        WebhookFormat::GoogleChat
    }
}

/// The largest batch, in lines, unless configured otherwise.
pub const DEFAULT_BUFFER_SIZE: usize = 10;

/// The quiescence timeout, in milliseconds, unless configured otherwise.
pub const DEFAULT_BUFFER_TIMEOUT_MS: u64 = 2000;

/// Settings of one invocation. Read-only once built.
#[derive(Clone, Debug)]
pub struct Args {
    /// Where messages go; dry-run mode needs none.
    pub webhook_url: Option<String>,
    /// Text sent in place of the default when the command succeeds.
    pub on_success: Option<String>,
    /// Text sent in place of the default when the command fails.
    pub on_failure: Option<String>,
    /// Keep the command's output off the webhook (it is still echoed locally).
    pub quiet: bool,
    /// Put `[title] ` in front of every message.
    pub title: Option<String>,
    /// Print what would be sent, and send nothing.
    pub dry_run: bool,
    /// The payload shape.
    pub format: WebhookFormat,
    /// A batch is delivered once it holds this many lines.
    pub buffer_size: usize,
    /// A batch is delivered after this many milliseconds without a new event.
    pub buffer_timeout_ms: u64,
    /// The command line to run.
    pub command: Vec<String>,
}

impl Default for Args {
    fn default() -> (r: Self)
        ensures
            r.webhook_url is None,
            r.on_success is None,
            r.on_failure is None,
            !r.quiet,
            r.title is None,
            !r.dry_run,
            r.format == WebhookFormat::GoogleChat,
            r.buffer_size == DEFAULT_BUFFER_SIZE,
            r.buffer_timeout_ms == DEFAULT_BUFFER_TIMEOUT_MS,
            r.command@.len() == 0,
    {
        Args {
            webhook_url: None,
            on_success: None,
            on_failure: None,
            quiet: false,
            title: None,
            dry_run: false,
            format: WebhookFormat::GoogleChat,
            buffer_size: DEFAULT_BUFFER_SIZE,
            buffer_timeout_ms: DEFAULT_BUFFER_TIMEOUT_MS,
            command: Vec::new(),
        }
    }
}

} // verus!
