use barter_data::error::ConnectionError;
use barter_data::validator::{
    MessageKind, SubscriptionValidation, ValidationEvent, ValidationState,
};

fn awaiting(expected: usize, timeout_ms: u64, start_ms: u64) -> SubscriptionValidation {
    let mut v = SubscriptionValidation::new(expected, timeout_ms);
    v.step(&ValidationEvent::RequestsTransmitted);
    v.step(&ValidationEvent::AwaitBegun { now_ms: start_ms });
    v
}

fn message(now_ms: u64, kind: MessageKind) -> ValidationEvent {
    ValidationEvent::Message { now_ms, kind }
}

#[test]
fn fresh_attempt_starts_idle() {
    let v = SubscriptionValidation::new(3, 10_000);
    assert_eq!(v.state, ValidationState::Idle);
    assert_eq!(v.expected, 3);
    assert_eq!(v.timeout_ms, 10_000);
    assert!(v.outcome().is_none());
}

#[test]
fn transmission_then_await_opens_the_window() {
    let v = awaiting(2, 1_000, 0);
    assert_eq!(
        v.state,
        ValidationState::AwaitingResponses {
            remaining: 2,
            deadline_ms: 1_000
        }
    );
}

#[test]
fn zero_expected_responses_validate_immediately() {
    let v = awaiting(0, 1_000, 0);
    assert_eq!(v.state, ValidationState::Validated);
    assert!(matches!(v.outcome(), Some(Ok(()))));
}

#[test]
fn valid_acks_with_noise_validate() {
    let mut v = awaiting(3, 1_000, 0);
    let mut events = vec![
        message(50, MessageKind::NotAResponse),
        message(100, MessageKind::ValidResponse),
        ValidationEvent::Tick { now_ms: 150 },
        message(300, MessageKind::ValidResponse),
        message(350, MessageKind::NotAResponse),
        message(400, MessageKind::ValidResponse),
    ];
    v.run(&events);
    assert_eq!(v.state, ValidationState::Validated);
    assert!(matches!(v.outcome(), Some(Ok(()))));

    // The same acknowledgments in another order validate too.
    let mut v = awaiting(3, 1_000, 0);
    events.reverse();
    for event in events {
        let event = match event {
            ValidationEvent::Message { kind, .. } => message(500, kind),
            other => other,
        };
        v.step(&event);
    }
    assert_eq!(v.state, ValidationState::Validated);
}

#[test]
fn one_invalid_ack_rejects_and_absorbs() {
    let mut v = awaiting(3, 1_000, 0);
    v.run(&vec![
        message(100, MessageKind::ValidResponse),
        message(
            200,
            MessageKind::InvalidResponse("error: unknown market xyz_usd".to_owned()),
        ),
    ]);
    assert_eq!(
        v.state,
        ValidationState::Rejected {
            response: "error: unknown market xyz_usd".to_owned()
        }
    );
    match v.outcome() {
        Some(Err(ConnectionError::SubscriptionRejected { response })) => {
            assert_eq!(response, "error: unknown market xyz_usd")
        }
        other => panic!("expected a rejection carrying the response, got {other:?}"),
    }

    // No further acknowledgments are processed after the rejection.
    v.run(&vec![
        message(300, MessageKind::ValidResponse),
        message(400, MessageKind::ValidResponse),
    ]);
    assert_eq!(
        v.state,
        ValidationState::Rejected {
            response: "error: unknown market xyz_usd".to_owned()
        }
    );
}

#[test]
fn too_few_acks_time_out_reporting_outstanding() {
    let mut v = awaiting(3, 1_000, 0);
    v.run(&vec![
        message(100, MessageKind::ValidResponse),
        ValidationEvent::Tick { now_ms: 1_000 },
    ]);
    assert_eq!(
        v.state,
        ValidationState::TimedOut { outstanding: 2 }
    );
    match v.outcome() {
        Some(Err(ConnectionError::SubscriptionTimeout { outstanding })) => {
            assert_eq!(outstanding, 2)
        }
        other => panic!("expected a timeout outcome, got {other:?}"),
    }

    // Terminal: a late acknowledgment changes nothing.
    v.step(&message(1_100, MessageKind::ValidResponse));
    assert_eq!(v.state, ValidationState::TimedOut { outstanding: 2 });
}

#[test]
fn three_acks_within_one_second_validate() {
    let mut v = awaiting(3, 1_000, 0);
    v.step(&message(100, MessageKind::ValidResponse));
    v.step(&message(200, MessageKind::ValidResponse));
    assert_eq!(
        v.state,
        ValidationState::AwaitingResponses {
            remaining: 1,
            deadline_ms: 1_000
        }
    );
    v.step(&message(300, MessageKind::ValidResponse));
    assert_eq!(v.state, ValidationState::Validated);
}

#[test]
fn two_acks_by_the_deadline_time_out_with_one_outstanding() {
    let mut v = awaiting(3, 1_000, 0);
    v.step(&message(100, MessageKind::ValidResponse));
    v.step(&message(200, MessageKind::ValidResponse));
    v.step(&ValidationEvent::Tick { now_ms: 1_000 });
    assert_eq!(v.state, ValidationState::TimedOut { outstanding: 1 });
}

#[test]
fn message_after_the_deadline_times_out() {
    let mut v = awaiting(2, 1_000, 500);
    assert_eq!(
        v.state,
        ValidationState::AwaitingResponses {
            remaining: 2,
            deadline_ms: 1_500
        }
    );
    v.step(&message(1_500, MessageKind::ValidResponse));
    assert_eq!(v.state, ValidationState::TimedOut { outstanding: 2 });
}

#[test]
fn ticks_before_the_deadline_change_nothing() {
    let mut v = awaiting(1, 1_000, 0);
    v.step(&ValidationEvent::Tick { now_ms: 999 });
    assert_eq!(
        v.state,
        ValidationState::AwaitingResponses {
            remaining: 1,
            deadline_ms: 1_000
        }
    );
}

#[test]
fn undecodable_messages_are_ignored_not_failures() {
    let mut v = awaiting(1, 1_000, 0);
    v.step(&message(100, MessageKind::NotAResponse));
    v.step(&message(200, MessageKind::NotAResponse));
    assert_eq!(
        v.state,
        ValidationState::AwaitingResponses {
            remaining: 1,
            deadline_ms: 1_000
        }
    );
    v.step(&message(300, MessageKind::ValidResponse));
    assert_eq!(v.state, ValidationState::Validated);
}

#[test]
fn deadline_saturates_near_the_clock_maximum() {
    let v = awaiting(1, u64::MAX, 10);
    assert_eq!(
        v.state,
        ValidationState::AwaitingResponses {
            remaining: 1,
            deadline_ms: u64::MAX
        }
    );
}
