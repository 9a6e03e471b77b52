use tauri_plugin_blec::event_handlers::{OnDisconnectHandler, SubscriptionHandler};

use std::cell::Cell;
use std::cell::RefCell;

#[test]
fn synchronous_disconnect_callback_runs_at_once() {
    let calls = Cell::new(0);
    let handler: OnDisconnectHandler<_, fn() -> u8> =
        OnDisconnectHandler::from_sync(|| calls.set(calls.get() + 1));
    assert_eq!(handler.run(), None);
    assert_eq!(calls.get(), 1);
}

#[test]
fn asynchronous_disconnect_callback_hands_out_what_to_wait_for() {
    let handler: OnDisconnectHandler<fn(), _> = OnDisconnectHandler::from_async(|| 42);
    assert_eq!(handler.run(), Some(42));
}

#[test]
fn no_disconnect_callback_does_nothing() {
    let handler: OnDisconnectHandler<fn(), fn() -> u8> = OnDisconnectHandler::NoHandler;
    assert_eq!(handler.run(), None);
}

#[test]
fn disconnect_callback_is_taken_once() {
    let mut handler: OnDisconnectHandler<u8, u8> = OnDisconnectHandler::from_sync(5);
    assert!(matches!(handler.take(), OnDisconnectHandler::Sync(5)));
    assert!(matches!(handler.take(), OnDisconnectHandler::NoHandler));
    assert!(matches!(handler, OnDisconnectHandler::NoHandler));
}

#[test]
fn synchronous_subscription_callback_gets_every_notification() {
    let seen = RefCell::new(vec![]);
    let handler: SubscriptionHandler<_, fn(Vec<u8>) -> u8> =
        SubscriptionHandler::from(|data: Vec<u8>| seen.borrow_mut().push(data));
    assert_eq!(handler.run(vec![1]), None);
    assert_eq!(handler.run(vec![2, 3]), None);
    assert_eq!(*seen.borrow(), vec![vec![1], vec![2, 3]]);
}

#[test]
fn asynchronous_subscription_callback_hands_out_what_to_wait_for() {
    let handler: SubscriptionHandler<fn(Vec<u8>), _> =
        SubscriptionHandler::from_async(|data: Vec<u8>| data.len());
    assert_eq!(handler.run(vec![1, 2, 3]), Some(3));
}
