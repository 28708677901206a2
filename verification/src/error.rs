//! User-facing error messages: a stable code, a message and an optional hint.
use crate::text::owned;
use vstd::prelude::*;

verus! {

/// A message shown to the user when a command fails.
#[derive(Debug, Clone, PartialEq, Eq)]
pub struct UserMessage {
    pub code: &'static str,
    pub message: String,
    pub hint: Option<String>,
}

impl UserMessage {
    /// A message without a hint.
    pub fn new(code: &'static str, message: &str) -> (r: UserMessage)
        ensures
            r.code == code,
            r.message@ == message@,
            r.hint is None,
    {
        UserMessage { code, message: owned(message), hint: None }
    }

    /// A message with a hint.
    pub fn with_hint(code: &'static str, message: &str, hint: &str) -> (r: UserMessage)
        ensures
            r.code == code,
            r.message@ == message@,
            r.hint matches Some(h) && h@ == hint@,
    {
        UserMessage { code, message: owned(message), hint: Some(owned(hint)) }
    }

    /// A runtime failure (`runtime.error`).
    pub fn runtime(message: &str) -> (r: UserMessage)
        ensures
            r.code@ == "runtime.error"@,
            r.message@ == message@,
            r.hint is None,
    {
        Self::new("runtime.error", message)
    }

    /// A usage failure (`cli.usage`).
    pub fn usage(message: &str) -> (r: UserMessage)
        ensures
            r.code@ == "cli.usage"@,
            r.message@ == message@,
            r.hint is None,
    {
        Self::new("cli.usage", message)
    }
}

} // verus!
