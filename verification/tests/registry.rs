use headless_chrome::registry::CallRegistry;
use headless_chrome::wire::CallError;
use headless_chrome::wire::Outcome;

fn number(n: u64) -> serde_json::Value {
    serde_json::Value::from(n)
}

#[test]
fn a_new_registry_has_no_calls() {
    let registry = CallRegistry::new();
    assert_eq!(registry.len(), 0);
    assert!(!registry.contains(0));
    assert!(!registry.is_pending(0));
}

#[test]
fn a_registered_call_is_pending() {
    let mut registry = CallRegistry::new();
    let handle = registry.register(7).expect("fresh id");
    assert_eq!(handle.id(), 7);
    assert_eq!(registry.len(), 1);
    assert!(registry.contains(7));
    assert!(registry.is_pending(7));
    assert!(!registry.contains(8));
}

#[test]
fn registering_an_id_twice_fails_and_changes_nothing() {
    let mut registry = CallRegistry::new();
    let first = registry.register(3).expect("fresh id");
    assert!(registry.deliver(3, Ok(number(1))));
    assert!(registry.register(3).is_none());
    assert_eq!(registry.len(), 1);
    assert_eq!(registry.poll(first), Ok(Ok(number(1))));
}

#[test]
fn a_delivered_response_reaches_the_caller() {
    let mut registry = CallRegistry::new();
    let handle = registry.register(1).expect("fresh id");
    assert!(registry.deliver(1, Ok(number(42))));
    assert!(!registry.is_pending(1));
    assert!(registry.contains(1));
    let outcome: Outcome = registry.poll(handle).expect("ready");
    assert_eq!(outcome, Ok(number(42)));
    assert!(!registry.contains(1));
    assert_eq!(registry.len(), 0);
}

#[test]
fn polling_a_pending_call_gives_the_handle_back() {
    let mut registry = CallRegistry::new();
    let handle = registry.register(1).expect("fresh id");
    let handle = registry.poll(handle).expect_err("nothing has arrived");
    assert_eq!(handle.id(), 1);
    assert!(registry.is_pending(1));
    assert!(registry.deliver(1, Ok(number(5))));
    assert_eq!(registry.poll(handle), Ok(Ok(number(5))));
}

#[test]
fn a_response_is_delivered_at_most_once() {
    let mut registry = CallRegistry::new();
    let handle = registry.register(9).expect("fresh id");
    assert!(registry.deliver(9, Ok(number(1))));
    assert!(!registry.deliver(9, Ok(number(2))));
    assert!(!registry.deliver(9, Err(CallError::TransportClosed)));
    assert_eq!(registry.poll(handle), Ok(Ok(number(1))));
    assert!(!registry.deliver(9, Ok(number(3))));
    assert_eq!(registry.len(), 0);
}

#[test]
fn a_response_for_an_unknown_call_is_discarded() {
    let mut registry = CallRegistry::new();
    let handle = registry.register(1).expect("fresh id");
    assert!(!registry.deliver(2, Ok(number(2))));
    assert_eq!(registry.len(), 1);
    assert!(registry.is_pending(1));
    assert!(registry.poll(handle).is_err());
}

#[test]
fn giving_up_on_a_pending_call_is_a_timeout() {
    let mut registry = CallRegistry::new();
    let handle = registry.register(4).expect("fresh id");
    assert_eq!(registry.expire(handle), Err(CallError::CallTimeout));
    assert!(!registry.contains(4));
    assert!(!registry.deliver(4, Ok(number(1))));
    assert_eq!(registry.len(), 0);
}

#[test]
fn giving_up_after_the_response_arrived_returns_the_response() {
    let mut registry = CallRegistry::new();
    let handle = registry.register(4).expect("fresh id");
    assert!(registry.deliver(4, Ok(number(11))));
    assert_eq!(registry.expire(handle), Ok(number(11)));
    assert!(!registry.contains(4));
}

#[test]
fn failing_all_calls_fills_every_pending_slot() {
    let mut registry = CallRegistry::new();
    let a = registry.register(1).expect("fresh id");
    let b = registry.register(2).expect("fresh id");
    let c = registry.register(3).expect("fresh id");
    assert!(registry.deliver(2, Ok(number(22))));
    registry.fail_all(CallError::TransportClosed);
    assert_eq!(registry.len(), 3);
    assert!(!registry.is_pending(1));
    assert!(!registry.is_pending(3));
    assert_eq!(registry.poll(a), Ok(Err(CallError::TransportClosed)));
    assert_eq!(registry.poll(b), Ok(Ok(number(22))));
    assert_eq!(registry.poll(c), Ok(Err(CallError::TransportClosed)));
    assert_eq!(registry.len(), 0);
}

#[test]
fn failing_all_calls_twice_is_failing_them_once() {
    let mut registry = CallRegistry::new();
    let a = registry.register(1).expect("fresh id");
    registry.fail_all(CallError::TransportClosed);
    registry.fail_all(CallError::CallTimeout);
    assert_eq!(registry.poll(a), Ok(Err(CallError::TransportClosed)));
    registry.fail_all(CallError::TransportClosed);
    assert_eq!(registry.len(), 0);
}

#[test]
fn a_response_after_the_connection_failed_is_discarded() {
    let mut registry = CallRegistry::new();
    let a = registry.register(1).expect("fresh id");
    registry.fail_all(CallError::TransportClosed);
    assert!(!registry.deliver(1, Ok(number(1))));
    assert_eq!(registry.expire(a), Err(CallError::TransportClosed));
}

#[test]
fn a_protocol_error_is_delivered_as_it_is() {
    let mut registry = CallRegistry::new();
    let a = registry.register(1).expect("fresh id");
    let error = CallError::ProtocolError { code: -32000, message: "No node".to_string() };
    assert!(registry.deliver(1, Err(error.duplicate())));
    assert_eq!(registry.poll(a), Ok(Err(error)));
}

#[test]
fn removing_a_call_in_the_middle_keeps_the_others() {
    let mut registry = CallRegistry::new();
    let a = registry.register(10).expect("fresh id");
    let b = registry.register(20).expect("fresh id");
    let c = registry.register(30).expect("fresh id");
    assert!(registry.deliver(10, Ok(number(1))));
    assert!(registry.deliver(20, Ok(number(2))));
    assert!(registry.deliver(30, Ok(number(3))));
    assert_eq!(registry.poll(b), Ok(Ok(number(2))));
    assert_eq!(registry.len(), 2);
    assert_eq!(registry.poll(c), Ok(Ok(number(3))));
    assert_eq!(registry.poll(a), Ok(Ok(number(1))));
}

#[test]
fn a_wait_goes_on_until_the_response_or_the_deadline() {
    let mut registry = CallRegistry::new();
    let handle = registry.register(1).expect("fresh id");
    let (handle, remaining) = registry.await_call(handle, 0, 3000).expect_err("nothing yet");
    assert_eq!(remaining, 3000);
    let (handle, remaining) = registry.await_call(handle, 2999, 3000).expect_err("nothing yet");
    assert_eq!((handle.id(), remaining), (1, 1));
    assert!(registry.is_pending(1));
    assert_eq!(registry.await_call(handle, 3000, 3000), Ok(Err(CallError::CallTimeout)));
    assert!(!registry.contains(1));
}

#[test]
fn a_wait_ends_with_the_response_however_late() {
    let mut registry = CallRegistry::new();
    let handle = registry.register(1).expect("fresh id");
    assert!(registry.deliver(1, Ok(number(8))));
    assert_eq!(registry.await_call(handle, 5000, 3000), Ok(Ok(number(8))));
    assert!(!registry.contains(1));
    let handle = registry.register(2).expect("fresh id");
    registry.fail_all(CallError::TransportClosed);
    assert_eq!(registry.await_call(handle, 10, 3000), Ok(Err(CallError::TransportClosed)));
}

#[test]
fn a_wait_without_patience_ends_at_once() {
    let mut registry = CallRegistry::new();
    let handle = registry.register(1).expect("fresh id");
    assert_eq!(registry.await_call(handle, 0, 0), Ok(Err(CallError::CallTimeout)));
}
