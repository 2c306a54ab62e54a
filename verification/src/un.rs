//! Notifications of the `UNUserNotificationCenter` flavour: the payload
//! builder, its action buttons, the responses users give, and the protocol
//! that sending follows.

use std::time::Duration;
use vstd::prelude::*;
use vstd::std_specs::convert::FromSpecImpl;

pub mod action;
pub mod auth;
pub mod delegate;
pub mod response;
pub mod send;

pub use action::Action;
pub use response::NotificationResponse;

verus! {

/// The sound a notification plays.
#[derive(Debug, Clone)]
pub enum Sound {
    /// The default system notification sound.
    Default,
    /// A named sound from the app bundle or the system sound library.
    Custom(String),
}

impl From<&str> for Sound {
    fn from(name: &str) -> (r: Sound)
        ensures
            r matches Sound::Custom(n) && n@ == name@,
    {
        Sound::Custom(name.to_owned())
    }
}

/// The sound named `v`.  A `String` is not determined by its characters, so
/// `from` cannot promise to return this very value; what it promises is
/// stated in its own `ensures`, and `obeys_from_spec` is `false`.
impl FromSpecImpl<&str> for Sound {
    open spec fn obeys_from_spec() -> bool {
        false
    }

    open spec fn from_spec(v: &str) -> Sound {
        Sound::Custom(choose|name: String| name@ == v@)
    }
}

impl From<String> for Sound {
    fn from(name: String) -> (r: Sound)
        ensures
            r == Sound::Custom(name),
    {
        Sound::Custom(name)
    }
}

impl FromSpecImpl<String> for Sound {
    open spec fn obeys_from_spec() -> bool {
        true
    }

    open spec fn from_spec(v: String) -> Sound {
        Sound::Custom(v)
    }
}

/// Errors of the notification-center flavour.
#[derive(Debug, Clone, PartialEq, Eq, Structural)]
pub enum Error {
    /// The process has no bundle identifier; `UNUserNotificationCenter`
    /// requires a valid `.app` bundle.
    NoBundleIdentifier,
    /// macOS rejected the notification scheduling request (e.g. no permission).
    NotificationRejected,
    /// No user interaction was received within the allowed timeout.
    ResponseTimeout,
}

impl Error {
    /// The message shown for this error.
    pub fn message(&self) -> (m: &'static str)
        ensures
            m@ == match self {
                Error::NoBundleIdentifier =>
                    "No bundle identifier found. UNUserNotificationCenter requires a valid .app bundle."@,
                Error::NotificationRejected => "macOS rejected the notification request"@,
                Error::ResponseTimeout => "Timed out waiting for notification response"@,
            },
    {
        match self {
            Error::NoBundleIdentifier =>
                "No bundle identifier found. UNUserNotificationCenter requires a valid .app bundle.",
            Error::NotificationRejected => "macOS rejected the notification request",
            Error::ResponseTimeout => "Timed out waiting for notification response",
        }
    }
}

/// Verify that the process has a bundle identifier, given the identifier
/// that the main bundle reports (`None` when it reports none).
pub fn check_bundle(bundle_identifier: Option<&str>) -> (r: Result<(), Error>)
    ensures
        r == (if bundle_identifier is Some {
            Ok(())
        } else {
            Err(Error::NoBundleIdentifier)
        }),
{
    match bundle_identifier {
        Some(_) => Ok(()),
        None => Err(Error::NoBundleIdentifier),
    }
}

/// What a notification holds: the texts by their characters, the rest as is.
pub struct NotificationView {
    pub title: Seq<char>,
    pub body: Seq<char>,
    pub subtitle: Option<Seq<char>>,
    pub sound: Option<Sound>,
    pub actions: Seq<Action>,
    pub timeout: Option<Duration>,
}

/// The view of a notification nothing has been set on.
pub open spec fn empty_notification() -> NotificationView {
    NotificationView {
        title: Seq::empty(),
        body: Seq::empty(),
        subtitle: None,
        sound: None,
        actions: Seq::empty(),
        timeout: None,
    }
}

/// The payload for a notification — title, body, and optional subtitle,
/// sound, action buttons and response timeout.
pub struct Notification {
    title: String,
    body: String,
    subtitle: Option<String>,
    sound: Option<Sound>,
    actions: Vec<Action>,
    /// How long to wait for user interaction before giving up (only
    /// relevant when the notification has action buttons).
    action_timeout: Option<Duration>,
}

/// The parts of a notification, handed over for building the platform's
/// notification content.
pub struct NotificationParts {
    pub title: String,
    pub body: String,
    pub subtitle: Option<String>,
    pub sound: Option<Sound>,
    pub actions: Vec<Action>,
    pub timeout: Option<Duration>,
}

impl View for Notification {
    type V = NotificationView;

    closed spec fn view(&self) -> NotificationView {
        NotificationView {
            title: self.title@,
            body: self.body@,
            subtitle: match self.subtitle {
                Some(s) => Some(s@),
                None => None,
            },
            sound: self.sound,
            actions: self.actions@,
            timeout: self.action_timeout,
        }
    }
}

impl Default for Notification {
    fn default() -> (r: Self)
        ensures
            r@ == empty_notification(),
    {
        Notification {
            title: String::new(),
            body: String::new(),
            subtitle: None,
            sound: None,
            actions: Vec::new(),
            action_timeout: None,
        }
    }
}

impl Notification {
    /// Create an empty `Notification`.
    pub fn new() -> (r: Self)
        ensures
            r@ == empty_notification(),
    {
        Self::default()
    }

    /// Set the notification title.
    pub fn title(self, title: &str) -> (r: Self)
        ensures
            r@ == (NotificationView { title: title@, ..self@ }),
    {
        let mut this = self;
        this.title = title.to_owned();
        this
    }

    /// Set the notification body text.
    pub fn message(self, message: &str) -> (r: Self)
        ensures
            r@ == (NotificationView { body: message@, ..self@ }),
    {
        let mut this = self;
        this.body = message.to_owned();
        this
    }

    /// Set a subtitle shown below the title.
    pub fn subtitle(self, subtitle: &str) -> (r: Self)
        ensures
            r@ == (NotificationView { subtitle: Some(subtitle@), ..self@ }),
    {
        let mut this = self;
        this.subtitle = Some(subtitle.to_owned());
        this
    }

    /// Add an action button after those added before.
    pub fn action(self, action: Action) -> (r: Self)
        ensures
            r@ == (NotificationView { actions: self@.actions.push(action), ..self@ }),
    {
        let mut this = self;
        this.actions.push(action);
        this
    }

    /// Set how long to wait for the user to interact with this notification.
    pub fn timeout(self, duration: Duration) -> (r: Self)
        ensures
            r@ == (NotificationView { timeout: Some(duration), ..self@ }),
    {
        let mut this = self;
        this.action_timeout = Some(duration);
        this
    }

    /// Play the default system notification sound.
    pub fn default_sound(self) -> (r: Self)
        ensures
            r@ == (NotificationView { sound: Some(Sound::Default), ..self@ }),
    {
        let mut this = self;
        this.sound = Some(Sound::Default);
        this
    }

    /// Play a named sound from the app bundle or system sound library.
    ///
    /// The sound set is what converting `sound` gives.
    pub fn sound<S: Into<Sound>>(self, sound: S) -> (r: Self)
        ensures
            r@.sound is Some,
            call_ensures(S::into, (sound,), r@.sound->0),
            r@ == (NotificationView { sound: r@.sound, ..self@ }),
    {
        let mut this = self;
        this.sound = Some(sound.into());
        this
    }

    /// Whether action buttons were added, that is, whether sending waits for
    /// the user's response.
    pub fn has_actions(&self) -> (r: bool)
        ensures
            r == (self@.actions.len() > 0),
    {
        self.actions.len() > 0
    }

    /// The actions added so far, in the order they were added.
    pub fn actions(&self) -> (r: &Vec<Action>)
        ensures
            r@ == self@.actions,
    {
        &self.actions
    }

    /// The response timeout, if one was set.
    pub fn action_timeout(&self) -> (r: Option<Duration>)
        ensures
            r == self@.timeout,
    {
        self.action_timeout
    }

    /// Take the notification apart into its parts.
    pub fn into_parts(self) -> (r: NotificationParts)
        ensures
            r.title@ == self@.title,
            r.body@ == self@.body,
            r.subtitle is Some == self@.subtitle is Some,
            r.subtitle matches Some(s) ==> self@.subtitle == Some(s@),
            r.sound == self@.sound,
            r.actions@ == self@.actions,
            r.timeout == self@.timeout,
    {
        NotificationParts {
            title: self.title,
            body: self.body,
            subtitle: self.subtitle,
            sound: self.sound,
            actions: self.actions,
            timeout: self.action_timeout,
        }
    }
}

} // verus!
