use std::time::Duration;

use mac_notification_sys::un::action::Action;
use mac_notification_sys::un::auth::request_auth_result;
use mac_notification_sys::un::response::NotificationResponse;
use mac_notification_sys::un::send::{
    category_identifier, ScheduleStep, SendAction, SendEvent, SendFlow, SendStage,
};
use mac_notification_sys::un::{Error, Notification};

fn response(id: &str) -> NotificationResponse {
    NotificationResponse { action_identifier: id.to_string(), reply_text: None }
}

#[test]
fn category_identifier_sorts_and_joins() {
    let actions = vec![
        Action::new("action.reply", "Reply"),
        Action::new("action.archive", "Archive"),
        Action::new("action.like", "Like"),
    ];
    assert_eq!(category_identifier(&actions), "action.archive,action.like,action.reply");
    assert_eq!(category_identifier(&vec![Action::new("solo", "Solo")]), "solo");
    assert_eq!(category_identifier(&vec![]), "");
}

#[test]
fn category_identifier_ignores_insertion_order() {
    let a = vec![Action::new("b", "B"), Action::new("a", "A"), Action::new("ab", "AB")];
    let b = vec![Action::new("ab", "AB"), Action::new("b", "B"), Action::new("a", "A")];
    assert_eq!(category_identifier(&a), "a,ab,b");
    assert_eq!(category_identifier(&a), category_identifier(&b));
}

#[test]
fn category_identifier_orders_by_bytes() {
    // Uppercase letters come before lowercase ones, and a prefix before its extensions.
    let actions = vec![Action::new("b", "1"), Action::new("B", "2"), Action::new("bb", "3"), Action::new("é", "4")];
    assert_eq!(category_identifier(&actions), "B,b,bb,é");
}

#[test]
fn fire_and_forget_send_finishes_when_accepted() {
    let content = Notification::new().title("Hi");
    let mut flow = SendFlow::begin(&content, false);
    assert_eq!(flow.stage(), SendStage::CheckingBundle);
    match flow.step(SendEvent::BundleChecked(true)) {
        SendAction::Schedule { steps } => {
            assert_eq!(steps.len(), 1);
            assert!(matches!(steps[0], ScheduleStep::AddRequest));
        }
        _ => panic!("expected Schedule"),
    }
    match flow.step(SendEvent::Scheduled(true)) {
        SendAction::Finish { result, release_sender } => {
            assert_eq!(result, Ok(None));
            assert!(!release_sender);
        }
        _ => panic!("expected Finish"),
    }
    assert_eq!(flow.stage(), SendStage::Finished);
    assert!(matches!(flow.step(SendEvent::TimedOut), SendAction::Ignore));
}

#[test]
fn missing_bundle_ends_the_send() {
    let content = Notification::new();
    let mut flow = SendFlow::begin(&content, true);
    match flow.step(SendEvent::BundleChecked(false)) {
        SendAction::Finish { result, release_sender } => {
            assert_eq!(result, Err(Error::NoBundleIdentifier));
            assert!(!release_sender);
        }
        _ => panic!("expected Finish"),
    }
}

#[test]
fn actions_wait_for_the_response() {
    let content = Notification::new()
        .action(Action::new("yes", "Yes"))
        .action(Action::new("no", "No"))
        .timeout(Duration::from_secs(5));
    let mut flow = SendFlow::begin(&content, content.has_actions());
    match flow.step(SendEvent::BundleChecked(true)) {
        SendAction::Schedule { steps } => {
            assert_eq!(steps.len(), 3);
            assert!(matches!(steps[0], ScheduleStep::RegisterCategory(ref c) if c == "no,yes"));
            assert!(matches!(steps[1], ScheduleStep::RegisterResponseSender));
            assert!(matches!(steps[2], ScheduleStep::AddRequest));
        }
        _ => panic!("expected Schedule"),
    }
    match flow.step(SendEvent::Scheduled(true)) {
        SendAction::AwaitResponse { timeout } => assert_eq!(timeout, Some(Duration::from_secs(5))),
        _ => panic!("expected AwaitResponse"),
    }
    match flow.step(SendEvent::Responded(response("yes"))) {
        SendAction::Finish { result, release_sender } => {
            assert_eq!(result, Ok(Some(response("yes"))));
            assert!(!release_sender);
        }
        _ => panic!("expected Finish"),
    }
}

#[test]
fn timeout_ends_the_wait_and_releases_the_sender() {
    let content = Notification::new().action(Action::new("ok", "OK")).timeout(Duration::from_millis(10));
    let mut flow = SendFlow::begin(&content, true);
    flow.step(SendEvent::BundleChecked(true));
    flow.step(SendEvent::Scheduled(true));
    match flow.step(SendEvent::TimedOut) {
        SendAction::Finish { result, release_sender } => {
            assert_eq!(result, Err(Error::ResponseTimeout));
            assert!(release_sender);
        }
        _ => panic!("expected Finish"),
    }
}

#[test]
fn without_timeout_only_the_user_ends_the_wait() {
    let content = Notification::new().action(Action::new("ok", "OK"));
    let mut flow = SendFlow::begin(&content, true);
    flow.step(SendEvent::BundleChecked(true));
    flow.step(SendEvent::Scheduled(true));
    assert!(matches!(flow.step(SendEvent::TimedOut), SendAction::Ignore));
    assert_eq!(flow.stage(), SendStage::AwaitingResponse);
    match flow.step(SendEvent::ResponseDropped) {
        SendAction::Finish { result, release_sender } => {
            assert_eq!(result, Err(Error::NotificationRejected));
            assert!(!release_sender);
        }
        _ => panic!("expected Finish"),
    }
}

#[test]
fn rejected_request_releases_a_registered_sender() {
    let content = Notification::new().action(Action::new("ok", "OK"));
    let mut flow = SendFlow::begin(&content, true);
    flow.step(SendEvent::BundleChecked(true));
    match flow.step(SendEvent::Scheduled(false)) {
        SendAction::Finish { result, release_sender } => {
            assert_eq!(result, Err(Error::NotificationRejected));
            assert!(release_sender);
        }
        _ => panic!("expected Finish"),
    }

    let mut plain = SendFlow::begin(&Notification::new(), false);
    plain.step(SendEvent::BundleChecked(true));
    match plain.step(SendEvent::Scheduled(false)) {
        SendAction::Finish { result, release_sender } => {
            assert_eq!(result, Err(Error::NotificationRejected));
            assert!(!release_sender);
        }
        _ => panic!("expected Finish"),
    }
}

#[test]
fn out_of_order_events_are_ignored() {
    let mut flow = SendFlow::begin(&Notification::new(), false);
    assert!(matches!(flow.step(SendEvent::Scheduled(true)), SendAction::Ignore));
    assert!(matches!(flow.step(SendEvent::Responded(response("x"))), SendAction::Ignore));
    assert_eq!(flow.stage(), SendStage::CheckingBundle);
}

#[test]
fn authorization_outcomes() {
    assert_eq!(request_auth_result(Some(true)), Ok(true));
    assert_eq!(request_auth_result(Some(false)), Ok(false));
    assert_eq!(request_auth_result(None), Err(Error::NotificationRejected));
}

#[test]
fn flow_for_notification_waits_only_with_actions() {
    let plain = Notification::new().title("plain");
    let mut flow = SendFlow::for_notification(&plain);
    match flow.step(SendEvent::BundleChecked(true)) {
        SendAction::Schedule { steps } => {
            assert_eq!(steps.len(), 1);
            assert!(matches!(steps[0], ScheduleStep::AddRequest));
        }
        _ => panic!("expected Schedule"),
    }
    match flow.step(SendEvent::Scheduled(true)) {
        SendAction::Finish { result, .. } => assert_eq!(result, Ok(None)),
        _ => panic!("expected Finish"),
    }

    let with_actions = Notification::new().action(Action::new("ok", "OK"));
    let mut flow = SendFlow::for_notification(&with_actions);
    match flow.step(SendEvent::BundleChecked(true)) {
        SendAction::Schedule { steps } => {
            assert_eq!(steps.len(), 3);
            assert!(matches!(steps[0], ScheduleStep::RegisterCategory(ref c) if c == "ok"));
            assert!(matches!(steps[1], ScheduleStep::RegisterResponseSender));
            assert!(matches!(steps[2], ScheduleStep::AddRequest));
        }
        _ => panic!("expected Schedule"),
    }
    assert!(matches!(flow.step(SendEvent::Scheduled(true)), SendAction::AwaitResponse { timeout: None }));
    match flow.step(SendEvent::Responded(response("ok"))) {
        SendAction::Finish { result, .. } => assert_eq!(result, Ok(Some(response("ok")))),
        _ => panic!("expected Finish"),
    }
}

#[test]
fn sender_registration_without_category() {
    // send_with_actions on a notification without actions still waits.
    let mut flow = SendFlow::begin(&Notification::new(), true);
    match flow.step(SendEvent::BundleChecked(true)) {
        SendAction::Schedule { steps } => {
            assert_eq!(steps.len(), 2);
            assert!(matches!(steps[0], ScheduleStep::RegisterResponseSender));
            assert!(matches!(steps[1], ScheduleStep::AddRequest));
        }
        _ => panic!("expected Schedule"),
    }
}
