//! The response a user gave to a notification.

use vstd::prelude::*;

use crate::text::text_eq;

verus! {

/// What the user did with a notification.
#[derive(Debug, Clone, PartialEq, Eq)]
pub struct NotificationResponse {
    /// The identifier of the action the user chose.
    pub action_identifier: String,
    /// The text typed by the user, if this was a text-input (reply) action.
    pub reply_text: Option<String>,
}

impl NotificationResponse {
    /// Returns `true` if the user submitted text via a text-input action.
    pub fn is_reply(&self) -> (r: bool)
        ensures
            r == self.reply_text is Some,
    {
        self.reply_text.is_some()
    }

    /// Returns `true` if the user chose the action with the given identifier;
    /// the built-in default and dismiss actions are checked by passing the
    /// platform's identifiers for them.
    pub fn is_action(&self, identifier: &str) -> (r: bool)
        ensures
            r == (self.action_identifier@ == identifier@),
    {
        text_eq(self.action_identifier.as_str(), identifier)
    }
}

} // verus!
