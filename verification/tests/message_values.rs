use event_loop::message::{MessageError, MessageEvent, MessageResult, MessageType};

#[test]
fn result_new_ok_accessors() {
    let r: MessageResult<u32, String> = MessageResult::new_ok(7, "counter", 12);
    assert_eq!(r.origin(), "counter");
    assert_eq!(r.correlation_id(), 12);
    assert_eq!(r.id_pair(), ("counter", 12));
    assert!(r.check_correlation(12));
    assert!(!r.check_correlation(13));
    assert_eq!(r.result(), Ok(7));
}

#[test]
fn result_new_err_accessors() {
    let r: MessageResult<u32, String> = MessageResult::new_err("boom".to_string(), "worker", 65535);
    assert_eq!(r.id_pair(), ("worker", 65535));
    assert!(r.check_correlation(65535));
    assert!(!r.check_correlation(0));
    assert_eq!(r.result(), Err("boom".to_string()));
}

#[test]
fn notification_accessors() {
    let mut ev: MessageEvent<String, u32, String> = MessageEvent::new_notification("inc", 3, "payload".to_string());
    assert_eq!(ev.origin(), "inc");
    assert_eq!(*ev.correlation_id(), 3);
    ev.message().push_str("!");
    assert_eq!(ev.message, "payload!");
    assert_eq!(ev.origin(), "inc");
    assert_eq!(*ev.correlation_id(), 3);
    assert_eq!(ev.into_message(), "payload!");
}

#[test]
fn message_event_accessors() {
    let (tx, _rx) = tokio::sync::mpsc::unbounded_channel::<MessageResult<u32, String>>();
    let ev: MessageEvent<u8, u32, String> = MessageEvent::new_message("current", 40, 9, tx);
    assert_eq!(ev.origin(), "current");
    assert_eq!(*ev.correlation_id(), 40);
    assert_eq!(ev.message, 9);
    assert_eq!(ev.into_message(), 9);
}

#[test]
fn callback_ok_sends_tagged_reply() {
    let (tx, mut rx) = tokio::sync::mpsc::unbounded_channel::<MessageResult<u32, String>>();
    let ev: MessageEvent<u8, u32, String> = MessageEvent::new_message("current", 40, 9, tx);
    assert!(ev.callback_ok(2000).is_ok());
    let reply = rx.try_recv().unwrap();
    assert_eq!(reply.id_pair(), ("current", 40));
    assert_eq!(reply.result(), Ok(2000));
}

#[test]
fn callback_err_sends_tagged_error() {
    let (tx, mut rx) = tokio::sync::mpsc::unbounded_channel::<MessageResult<u32, String>>();
    let ev: MessageEvent<u8, u32, String> = MessageEvent::new_message("error_test", 5, 1, tx);
    assert!(ev.callback_err("TestError".to_string()).is_ok());
    let reply = rx.try_recv().unwrap();
    assert_eq!(reply.id_pair(), ("error_test", 5));
    assert_eq!(reply.result(), Err("TestError".to_string()));
}

#[test]
fn callback_ok_to_closed_channel_returns_reply() {
    let (tx, rx) = tokio::sync::mpsc::unbounded_channel::<MessageResult<u32, String>>();
    drop(rx);
    let ev: MessageEvent<u8, u32, String> = MessageEvent::new_message("current", 8, 1, tx);
    match ev.callback_ok(77) {
        Err(MessageError::SendError(reply)) => {
            assert_eq!(reply.id_pair(), ("current", 8));
            assert_eq!(reply.result(), Ok(77));
        }
        other => panic!("unexpected {:?}", other),
    }
}

#[test]
fn callback_err_to_closed_channel_returns_reply() {
    let (tx, rx) = tokio::sync::mpsc::unbounded_channel::<MessageResult<u32, String>>();
    drop(rx);
    let ev: MessageEvent<u8, u32, String> = MessageEvent::new_message("current", 8, 1, tx);
    match ev.callback_err("late".to_string()) {
        Err(MessageError::SendError(reply)) => {
            assert_eq!(reply.id_pair(), ("current", 8));
            assert_eq!(reply.result(), Err("late".to_string()));
        }
        other => panic!("unexpected {:?}", other),
    }
}

#[test]
fn try_callback_ok_on_request_sends_reply() {
    let (tx, mut rx) = tokio::sync::mpsc::unbounded_channel::<MessageResult<u32, String>>();
    let ev: MessageEvent<u8, u32, String> = MessageEvent::new_message("get", 1, 0, tx);
    assert!(ev.try_callback_ok(11).is_ok());
    let reply = rx.try_recv().unwrap();
    assert_eq!(reply.id_pair(), ("get", 1));
    assert_eq!(reply.result(), Ok(11));
}

#[test]
fn try_callback_err_on_request_sends_reply() {
    let (tx, mut rx) = tokio::sync::mpsc::unbounded_channel::<MessageResult<u32, String>>();
    let ev: MessageEvent<u8, u32, String> = MessageEvent::new_message("get", 2, 0, tx);
    assert!(ev.try_callback_err("no".to_string()).is_ok());
    let reply = rx.try_recv().unwrap();
    assert_eq!(reply.id_pair(), ("get", 2));
    assert_eq!(reply.result(), Err("no".to_string()));
}

#[test]
fn try_callback_ok_on_notification_is_not_expected() {
    let ev: MessageEvent<u8, u32, String> = MessageEvent::new_notification("increment", 4, 0);
    assert!(matches!(ev.try_callback_ok(1), Err(MessageError::ResultNotExpected("increment"))));
}

#[test]
fn try_callback_err_on_notification_is_not_expected() {
    let ev: MessageEvent<u8, u32, String> = MessageEvent::new_notification("decrement", 4, 0);
    assert!(matches!(
        ev.try_callback_err("x".to_string()),
        Err(MessageError::ResultNotExpected("decrement"))
    ));
}

#[test]
fn try_callback_ok_to_closed_channel_returns_reply() {
    let (tx, rx) = tokio::sync::mpsc::unbounded_channel::<MessageResult<u32, String>>();
    drop(rx);
    let ev: MessageEvent<u8, u32, String> = MessageEvent::new_message("get", 6, 0, tx);
    match ev.try_callback_ok(3) {
        Err(MessageError::SendError(reply)) => {
            assert_eq!(reply.id_pair(), ("get", 6));
            assert_eq!(reply.result(), Ok(3));
        }
        other => panic!("unexpected {:?}", other),
    }
}

#[test]
fn message_type_variants_carry_values() {
    let m: MessageType<u8, u32, &str, String> = MessageType::Close("shutdown");
    assert!(matches!(m, MessageType::Close("shutdown")));
    let r: MessageType<u8, u32, &str, String> = MessageType::EventResponse(MessageResult::new_ok(1, "a", 2));
    match r {
        MessageType::EventResponse(res) => assert_eq!(res.id_pair(), ("a", 2)),
        _ => panic!("wrong variant"),
    }
}

#[test]
fn reply_is_tagged_with_event_ids() {
    let ev: MessageEvent<u8, u32, String> = MessageEvent::new_notification("inc", 21, 0);
    let ok = ev.reply(Ok(4));
    assert_eq!(ok.id_pair(), ("inc", 21));
    assert_eq!(ok.result(), Ok(4));
    let err = ev.reply(Err("bad".to_string()));
    assert_eq!(err.id_pair(), ("inc", 21));
    assert_eq!(err.result(), Err("bad".to_string()));
}

#[test]
fn send_outcome_maps_channel_outcome() {
    let ok = MessageEvent::<u8, u32, String>::send_outcome(Ok(()));
    assert!(ok.is_ok());
    match MessageEvent::<u8, u32, String>::send_outcome(Err(MessageResult::new_ok(3, "get", 2))) {
        Err(MessageError::SendError(reply)) => {
            assert_eq!(reply.id_pair(), ("get", 2));
            assert_eq!(reply.result(), Ok(3));
        }
        other => panic!("unexpected {:?}", other),
    }
}
