//! Notification payloads, action buttons, response routing and the send
//! protocol of macOS user notifications, with their contracts.
//!
//! The Objective-C side (the notification center, run loops, the worker
//! thread) drives these types from outside; everything that decides what is
//! sent, what is waited for and what a caller gets back lives here.

pub mod application;
pub mod error;
pub mod os;
pub mod text;
pub mod un;

pub use application::{get_bundle_identifier_or_default, ApplicationSetup};
pub use error::{ApplicationError, NotificationError, NotificationResult};
pub use un::Sound;
