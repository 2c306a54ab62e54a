//! Errors of the application-level setup and delivery.

use vstd::prelude::*;
use vstd::std_specs::convert::FromSpecImpl;

verus! {

/// Errors of setting the application that delivers notifications.
#[derive(Debug, Clone, PartialEq, Eq)]
pub enum ApplicationError {
    /// The application was already set; carries the bundle asked for.
    AlreadySet(String),
    /// The application could not be set; carries the bundle asked for.
    CouldNotSet(String),
}

/// Errors of delivering a notification.
#[derive(Debug, Clone, PartialEq, Eq, Structural)]
pub enum NotificationError {
    /// The delivery date lies in the past.
    ScheduleInThePast,
    /// The notification could not be delivered.
    UnableToDeliver,
}

/// Any error of this crate's application-level functions.
#[derive(Debug, Clone, PartialEq, Eq)]
pub enum Error {
    Application(ApplicationError),
    Notification(NotificationError),
}

impl From<ApplicationError> for Error {
    fn from(e: ApplicationError) -> (r: Error)
        ensures
            r == Error::Application(e),
    {
        Error::Application(e)
    }
}

impl FromSpecImpl<ApplicationError> for Error {
    open spec fn obeys_from_spec() -> bool {
        true
    }

    open spec fn from_spec(v: ApplicationError) -> Error {
        Error::Application(v)
    }
}

impl From<NotificationError> for Error {
    fn from(e: NotificationError) -> (r: Error)
        ensures
            r == Error::Notification(e),
    {
        Error::Notification(e)
    }
}

impl FromSpecImpl<NotificationError> for Error {
    open spec fn obeys_from_spec() -> bool {
        true
    }

    open spec fn from_spec(v: NotificationError) -> Error {
        Error::Notification(v)
    }
}

/// The result of this crate's application-level functions.
pub type NotificationResult<T> = Result<T, Error>;

} // verus!
