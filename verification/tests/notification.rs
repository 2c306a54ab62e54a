use std::time::Duration;

use mac_notification_sys::un::action::{Action, ActionCategory};
use mac_notification_sys::un::response::NotificationResponse;
use mac_notification_sys::un::{check_bundle, Error, Notification};
use mac_notification_sys::Sound;

#[test]
fn builder_sets_each_field() {
    let parts = Notification::new()
        .title("Title")
        .message("Body text")
        .subtitle("A subtitle")
        .sound("Submarine")
        .timeout(Duration::from_secs(60))
        .into_parts();
    assert_eq!(parts.title, "Title");
    assert_eq!(parts.body, "Body text");
    assert_eq!(parts.subtitle.as_deref(), Some("A subtitle"));
    assert!(matches!(parts.sound, Some(Sound::Custom(ref s)) if s == "Submarine"));
    assert_eq!(parts.timeout, Some(Duration::from_secs(60)));
    assert!(parts.actions.is_empty());
}

#[test]
fn empty_notification_has_nothing_set() {
    let parts = Notification::default().into_parts();
    assert_eq!(parts.title, "");
    assert_eq!(parts.body, "");
    assert!(parts.subtitle.is_none());
    assert!(parts.sound.is_none());
    assert!(parts.timeout.is_none());
    assert!(parts.actions.is_empty());
}

#[test]
fn later_setter_wins_and_default_sound() {
    let parts = Notification::new()
        .title("first")
        .title("second")
        .sound("Submarine")
        .default_sound()
        .into_parts();
    assert_eq!(parts.title, "second");
    assert!(matches!(parts.sound, Some(Sound::Default)));
}

#[test]
fn actions_keep_their_order() {
    let n = Notification::new()
        .action(Action::new("action.reply", "Reply"))
        .action(Action::new("action.archive", "Archive").destructive());
    assert!(n.has_actions());
    let ids: Vec<&str> = n.actions().iter().map(|a| a.identifier.as_str()).collect();
    assert_eq!(ids, vec!["action.reply", "action.archive"]);
    assert!(n.actions()[1].destructive);
    assert!(!n.actions()[0].destructive);
    assert!(!Notification::new().has_actions());
}

#[test]
fn action_builders() {
    let a = Action::new("id", "Title").requires_authentication();
    assert_eq!(a.identifier, "id");
    assert_eq!(a.title, "Title");
    assert!(a.requires_authentication);
    assert!(!a.destructive);
    assert!(a.reply.is_none());

    let r = Action::reply("action.reply", "Reply", "Send", "Type a reply…");
    let config = r.reply.clone().unwrap();
    assert_eq!(config.button_title, "Send");
    assert_eq!(config.placeholder, "Type a reply…");
    assert!(!r.destructive && !r.requires_authentication);
}

#[test]
fn category_builders() {
    let c = ActionCategory::new("server.category")
        .action(Action::new("a", "A"))
        .action(Action::new("b", "B"));
    assert_eq!(c.identifier(), "server.category");
    assert_eq!(c.actions().len(), 2);
    assert_eq!(c.actions()[1].identifier, "b");

    let d = ActionCategory::from_actions("x", vec![Action::new("only", "Only")]);
    assert_eq!(d.identifier(), "x");
    assert_eq!(d.actions()[0].identifier, "only");
}

#[test]
fn response_predicates() {
    let reply = NotificationResponse {
        action_identifier: "action.reply".to_string(),
        reply_text: Some("hi".to_string()),
    };
    assert!(reply.is_reply());
    assert!(reply.is_action("action.reply"));
    assert!(!reply.is_action("action.repl"));
    assert!(!reply.is_action("action.replY"));

    let click = NotificationResponse {
        action_identifier: "com.apple.UNNotificationDefaultActionIdentifier".to_string(),
        reply_text: None,
    };
    assert!(!click.is_reply());
    assert!(click.is_action("com.apple.UNNotificationDefaultActionIdentifier"));
    assert!(!click.is_action("com.apple.UNNotificationDismissActionIdentifier"));
}

#[test]
fn bundle_check() {
    assert_eq!(check_bundle(Some("com.example.app")), Ok(()));
    assert_eq!(check_bundle(None), Err(Error::NoBundleIdentifier));
}

#[test]
fn error_messages() {
    assert_eq!(
        Error::NoBundleIdentifier.message(),
        "No bundle identifier found. UNUserNotificationCenter requires a valid .app bundle."
    );
    assert_eq!(Error::NotificationRejected.message(), "macOS rejected the notification request");
    assert_eq!(Error::ResponseTimeout.message(), "Timed out waiting for notification response");
}

#[test]
fn sound_conversions() {
    assert!(matches!(Sound::from("Ping"), Sound::Custom(ref s) if s == "Ping"));
    assert!(matches!(Sound::from(String::from("Glass")), Sound::Custom(ref s) if s == "Glass"));
}
