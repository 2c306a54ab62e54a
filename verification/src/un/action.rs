//! Notification action buttons and the categories that group them.

use vstd::prelude::*;

verus! {

/// Configuration for a text-input (reply) action.
#[derive(Debug, Clone)]
pub struct ReplyConfig {
    /// Label on the submit button (e.g. `"Send"`).
    pub button_title: String,
    /// Placeholder text shown in the empty input field.
    pub placeholder: String,
}

/// A single action button shown on a notification.
#[derive(Debug, Clone)]
pub struct Action {
    /// Identifier sent back in the response's `action_identifier`.
    pub identifier: String,
    /// Label shown on the button.
    pub title: String,
    /// If `true` the button is tinted red (destructive style).
    pub destructive: bool,
    /// If `true` the user must authenticate before the action fires.
    pub requires_authentication: bool,
    /// If `Some`, the action opens an inline text field instead of firing
    /// immediately; the typed text comes back as the response's `reply_text`.
    pub reply: Option<ReplyConfig>,
}

impl Action {
    /// Create a new action with the given identifier and button title.
    pub fn new(identifier: &str, title: &str) -> (r: Self)
        ensures
            r.identifier@ == identifier@,
            r.title@ == title@,
            !r.destructive,
            !r.requires_authentication,
            r.reply is None,
    {
        Action {
            identifier: identifier.to_owned(),
            title: title.to_owned(),
            destructive: false,
            requires_authentication: false,
            reply: None,
        }
    }

    /// Create a text-input action that opens a reply field when tapped.
    pub fn reply(identifier: &str, title: &str, button_title: &str, placeholder: &str) -> (r: Self)
        ensures
            r.identifier@ == identifier@,
            r.title@ == title@,
            !r.destructive,
            !r.requires_authentication,
            r.reply matches Some(c) && c.button_title@ == button_title@ && c.placeholder@
                == placeholder@,
    {
        Action {
            identifier: identifier.to_owned(),
            title: title.to_owned(),
            destructive: false,
            requires_authentication: false,
            reply: Some(
                ReplyConfig { button_title: button_title.to_owned(), placeholder: placeholder.to_owned() },
            ),
        }
    }

    /// Mark the action as destructive.
    pub fn destructive(self) -> (r: Self)
        ensures
            r == (Action { destructive: true, ..self }),
    {
        let mut this = self;
        this.destructive = true;
        this
    }

    /// Require the user to authenticate before this action fires.
    pub fn requires_authentication(self) -> (r: Self)
        ensures
            r == (Action { requires_authentication: true, ..self }),
    {
        let mut this = self;
        this.requires_authentication = true;
        this
    }
}

/// A named group of actions that macOS attaches to a notification.
#[derive(Debug, Clone)]
pub struct ActionCategory {
    identifier: String,
    actions: Vec<Action>,
}

/// What a category holds: its identifier's characters and its actions.
pub struct CategoryView {
    pub identifier: Seq<char>,
    pub actions: Seq<Action>,
}

impl View for ActionCategory {
    type V = CategoryView;

    closed spec fn view(&self) -> CategoryView {
        CategoryView { identifier: self.identifier@, actions: self.actions@ }
    }
}

impl ActionCategory {
    /// Create a new category with the given identifier and no actions.
    pub fn new(identifier: &str) -> (r: Self)
        ensures
            r@ == (CategoryView { identifier: identifier@, actions: Seq::empty() }),
    {
        ActionCategory { identifier: identifier.to_owned(), actions: Vec::new() }
    }

    /// Create a category from an existing list of actions.
    pub fn from_actions(identifier: &str, actions: Vec<Action>) -> (r: Self)
        ensures
            r@ == (CategoryView { identifier: identifier@, actions: actions@ }),
    {
        ActionCategory { identifier: identifier.to_owned(), actions }
    }

    /// Append an action button to this category.
    pub fn action(self, action: Action) -> (r: Self)
        ensures
            r@ == (CategoryView { actions: self@.actions.push(action), ..self@ }),
    {
        let mut this = self;
        this.actions.push(action);
        this
    }

    /// The category's identifier.
    pub fn identifier(&self) -> (r: &str)
        ensures
            r@ == self@.identifier,
    {
        self.identifier.as_str()
    }

    /// The actions of the category, in the order they were added.
    pub fn actions(&self) -> (r: &Vec<Action>)
        ensures
            r@ == self@.actions,
    {
        &self.actions
    }
}

} // verus!
