//! Errors that stop an invocation before any work is done.
use vstd::prelude::*;

verus! {

/// An invocation that cannot start.
#[derive(Clone, Copy, Debug, PartialEq, Eq, Structural)]
pub enum AppError {
    /// Neither an endpoint nor dry-run mode was given.
    MissingWebhookUrl,
}

impl AppError {
    /// The text shown to the operator.
    pub fn message(&self) -> (r: String)
        ensures
            r@ == "Missing Webhook URL: Set --webhook-url or the WEBHOOK_URL environment variable."@,
    {
        match self {
            AppError::MissingWebhookUrl => String::from_str(
                "Missing Webhook URL: Set --webhook-url or the WEBHOOK_URL environment variable.",
            ),
        }
    }
}

} // verus!
