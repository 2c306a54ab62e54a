use mac_notification_sys::un::delegate::PendingResponses;

#[test]
fn response_reaches_the_registered_sender_once() {
    let mut pending: PendingResponses<u32> = PendingResponses::new();
    pending.register("req-1".to_string(), 1);
    pending.register("req-2".to_string(), 2);
    let (tx, resp) = pending
        .respond("req-1", "action.like".to_string(), None)
        .expect("a sender waits on req-1");
    assert_eq!(tx, 1);
    assert_eq!(resp.action_identifier, "action.like");
    assert!(resp.reply_text.is_none());
    assert!(pending.respond("req-1", "again".to_string(), None).is_none());
    let (tx2, resp2) = pending
        .respond("req-2", "action.reply".to_string(), Some("hello".to_string()))
        .unwrap();
    assert_eq!(tx2, 2);
    assert_eq!(resp2.reply_text.as_deref(), Some("hello"));
}

#[test]
fn deregistered_request_gets_no_response() {
    let mut pending: PendingResponses<&str> = PendingResponses::new();
    pending.register("req".to_string(), "sender");
    assert_eq!(pending.deregister("req"), Some("sender"));
    assert_eq!(pending.deregister("req"), None);
    assert!(pending.respond("req", "x".to_string(), None).is_none());
}

#[test]
fn registering_again_replaces_the_sender() {
    let mut pending: PendingResponses<u8> = PendingResponses::new();
    pending.register("req".to_string(), 1);
    pending.register("req".to_string(), 7);
    assert_eq!(pending.deregister("req"), Some(7));
    assert_eq!(pending.deregister("req"), None);
}

#[test]
fn unknown_request_is_fire_and_forget() {
    let mut pending: PendingResponses<u8> = PendingResponses::new();
    pending.register("known".to_string(), 3);
    assert!(pending.respond("unknown", "x".to_string(), None).is_none());
    assert_eq!(pending.deregister("known"), Some(3));
}
