//! The subscription-validation protocol.
//!
//! One [`SubscriptionValidation`] instance accompanies one
//! connection-establishment attempt. After the subscriber has transmitted
//! every outbound request, the validator awaits exactly the expected number
//! of valid acknowledgments within a bounded time window. Any single invalid
//! acknowledgment aborts the whole batch: a partially subscribed session is
//! indistinguishable from a silently degraded feed, and no stream may start
//! from one.
//!
//! Times are plain milliseconds fed in by the caller, so the protocol is a
//! deterministic function of the observations it is given and is verified
//! for every interleaving of acknowledgments, noise and clock ticks.

use vstd::prelude::*;
use crate::error::ConnectionError;

verus! {

/// Classification of one inbound transport message while awaiting
/// acknowledgments, produced by decoding it as the connector's subscription
/// response type and running that response's validity check.
#[derive(Clone, Eq, PartialEq, Debug)]
pub enum MessageKind {
    /// Not decodable as a subscription response: not an acknowledgment at
    /// all, ignored by the protocol and passed through to other consumers.
    NotAResponse,
    /// A subscription response whose validity check passed.
    ValidResponse,
    /// A subscription response whose validity check failed. Carries the
    /// offending response text.
    InvalidResponse(String),
}

/// One observation fed to the validation state machine.
#[derive(Clone, Eq, PartialEq, Debug)]
pub enum ValidationEvent {
    /// The subscriber finished transmitting every outbound request.
    RequestsTransmitted,
    /// The validator starts awaiting responses, at the given time.
    AwaitBegun { now_ms: u64 },
    /// An inbound message arrived at the given time.
    Message { now_ms: u64, kind: MessageKind },
    /// The clock reached the given time with no message.
    Tick { now_ms: u64 },
}

/// State of one connection-establishment attempt. `Validated`, `Rejected`
/// and `TimedOut` are terminal: no event leaves them within one attempt; a
/// fresh attempt starts a new instance at `Idle`.
#[derive(Clone, Eq, PartialEq, Debug)]
pub enum ValidationState {
    /// Initial: requests not yet transmitted.
    Idle,
    /// Every outbound request has been transmitted.
    RequestsSent,
    /// Awaiting `remaining` further valid acknowledgments until
    /// `deadline_ms`.
    AwaitingResponses { remaining: usize, deadline_ms: u64 },
    /// Terminal success: every expected acknowledgment arrived in time.
    Validated,
    /// Terminal failure: the exchange rejected a subscription. Carries the
    /// offending response, identifying which request appears to have failed.
    Rejected { response: String },
    /// Terminal failure: `outstanding` expected acknowledgments were never
    /// observed before the deadline.
    TimedOut { outstanding: usize },
}

/// Whether a state ends the attempt.
pub open spec fn is_terminal(state: ValidationState) -> bool {
    state is Validated || state is Rejected || state is TimedOut
}

/// The subscription-validation state machine of one connection attempt:
/// the connector's validation parameters plus the current state.
#[derive(Clone, Eq, PartialEq, Debug)]
pub struct SubscriptionValidation {
    /// Number of valid acknowledgments required, from the connector's
    /// expected-response count.
    pub expected: usize,
    /// Width of the validation window in milliseconds, from the connector's
    /// subscription timeout.
    pub timeout_ms: u64,
    /// Current protocol state.
    pub state: ValidationState,
}

/// The deadline a validation window started at `now_ms` runs to, saturating
/// at the largest representable time.
pub open spec fn deadline_after(now_ms: u64, timeout_ms: u64) -> u64 {
    if now_ms + timeout_ms <= u64::MAX {
        (now_ms + timeout_ms) as u64
    } else {
        u64::MAX
    }
}

/// The state after observing one event: the transition relation of the
/// protocol, as a pure function.
pub open spec fn spec_step(v: SubscriptionValidation, event: ValidationEvent) -> ValidationState {
    match (v.state, event) {
        (ValidationState::Idle, ValidationEvent::RequestsTransmitted) => ValidationState::RequestsSent,
        (ValidationState::RequestsSent, ValidationEvent::AwaitBegun { now_ms }) => if v.expected
            == 0 {
            ValidationState::Validated
        } else {
            (ValidationState::AwaitingResponses {
                remaining: v.expected,
                deadline_ms: deadline_after(now_ms, v.timeout_ms),
            })
        },
        (
            ValidationState::AwaitingResponses { remaining, deadline_ms },
            ValidationEvent::Message { now_ms, kind },
        ) => if now_ms >= deadline_ms {
            (ValidationState::TimedOut { outstanding: remaining })
        } else {
            match kind {
                MessageKind::NotAResponse => v.state,
                MessageKind::InvalidResponse(response) => (ValidationState::Rejected { response }),
                MessageKind::ValidResponse => if remaining <= 1 {
                    ValidationState::Validated
                } else {
                    (ValidationState::AwaitingResponses {
                        remaining: (remaining - 1) as usize,
                        deadline_ms,
                    })
                },
            }
        },
        (
            ValidationState::AwaitingResponses { remaining, deadline_ms },
            ValidationEvent::Tick { now_ms },
        ) => if now_ms >= deadline_ms {
            (ValidationState::TimedOut { outstanding: remaining })
        } else {
            v.state
        },
        _ => v.state,
    }
}

/// The machine after observing a sequence of events in order.
pub open spec fn spec_run(
    v: SubscriptionValidation,
    events: Seq<ValidationEvent>,
) -> SubscriptionValidation
    decreases events.len(),
{
    if events.len() == 0 {
        v
    } else {
        spec_run(v.with_state(spec_step(v, events.first())), events.drop_first())
    }
}

/// Whether an event is an acknowledgment that passed its validity check.
pub open spec fn is_valid_ack(event: ValidationEvent) -> bool {
    match event {
        ValidationEvent::Message { now_ms: _, kind } => kind is ValidResponse,
        _ => false,
    }
}

/// How many valid acknowledgments a sequence of events carries.
pub open spec fn count_valid(events: Seq<ValidationEvent>) -> nat
    decreases events.len(),
{
    if events.len() == 0 {
        0
    } else {
        count_valid(events.drop_first()) + (if is_valid_ack(events.first()) {
            1nat
        } else {
            0nat
        })
    }
}

/// Events that can neither reject nor time out an awaiting attempt: every
/// message and tick falls inside the validation window, and no message is an
/// invalid acknowledgment. Acknowledgments may arrive in any order,
/// interleaved with undecodable noise and spurious ticks.
pub open spec fn benign_until(events: Seq<ValidationEvent>, deadline_ms: u64) -> bool {
    forall|i: int|
        0 <= i < events.len() ==> match #[trigger] events[i] {
            ValidationEvent::Message { now_ms, kind } => now_ms < deadline_ms && !(kind
                is InvalidResponse),
            ValidationEvent::Tick { now_ms } => now_ms < deadline_ms,
            _ => true,
        }
}

/// Law: the terminal states absorb. Once an attempt is `Validated`,
/// `Rejected` or `TimedOut`, no further event is processed: every later
/// observation leaves the machine unchanged.
pub proof fn lemma_terminal_absorbing(v: SubscriptionValidation, events: Seq<ValidationEvent>)
    requires
        is_terminal(v.state),
    ensures
        spec_run(v, events) == v,
    decreases events.len(),
{
    if events.len() > 0 {
        assert(spec_step(v, events.first()) == v.state);
        assert(v.with_state(v.state) == v);
        lemma_terminal_absorbing(v, events.drop_first());
    }
}

/// Observing a concatenation is observing both halves in order.
pub proof fn lemma_run_append(
    v: SubscriptionValidation,
    s1: Seq<ValidationEvent>,
    s2: Seq<ValidationEvent>,
)
    ensures
        spec_run(v, s1 + s2) == spec_run(spec_run(v, s1), s2),
    decreases s1.len(),
{
    if s1.len() == 0 {
        assert(s1 + s2 =~= s2);
    } else {
        assert((s1 + s2).first() == s1.first());
        assert((s1 + s2).drop_first() =~= s1.drop_first() + s2);
        lemma_run_append(v.with_state(spec_step(v, s1.first())), s1.drop_first(), s2);
    }
}

/// Benign traffic short of the expected count keeps the attempt awaiting:
/// the deadline stays, and the remaining count drops by exactly the number
/// of valid acknowledgments observed.
pub proof fn lemma_benign_run_keeps_awaiting(
    v: SubscriptionValidation,
    events: Seq<ValidationEvent>,
    remaining: usize,
    deadline_ms: u64,
)
    requires
        v.state == (ValidationState::AwaitingResponses { remaining, deadline_ms }),
        benign_until(events, deadline_ms),
        count_valid(events) < remaining,
    ensures
        spec_run(v, events) == v.with_state(
            ValidationState::AwaitingResponses {
                remaining: (remaining - count_valid(events)) as usize,
                deadline_ms,
            },
        ),
    decreases events.len(),
{
    if events.len() == 0 {
        assert(v.with_state(v.state) == v);
    } else {
        let e = events.first();
        let rest = events.drop_first();
        assert(benign_until(rest, deadline_ms)) by {
            assert(forall|i: int| 0 <= i < rest.len() ==> rest[i] == events[i + 1]);
        }
        if is_valid_ack(e) {
            let v2 = v.with_state(
                ValidationState::AwaitingResponses {
                    remaining: (remaining - 1) as usize,
                    deadline_ms,
                },
            );
            assert(spec_step(v, e) == v2.state);
            lemma_benign_run_keeps_awaiting(v2, rest, (remaining - 1) as usize, deadline_ms);
        } else {
            assert(spec_step(v, e) == v.state);
            assert(v.with_state(v.state) == v);
            lemma_benign_run_keeps_awaiting(v, rest, remaining, deadline_ms);
        }
    }
}

/// Law: enough valid acknowledgments validate the attempt. An awaiting
/// machine that observes at least `remaining` valid acknowledgments inside
/// the validation window — in any order, interleaved with undecodable noise
/// and spurious ticks — ends `Validated`.
pub proof fn lemma_valid_acks_validate(
    v: SubscriptionValidation,
    events: Seq<ValidationEvent>,
    remaining: usize,
    deadline_ms: u64,
)
    requires
        v.state == (ValidationState::AwaitingResponses { remaining, deadline_ms }),
        remaining >= 1,
        benign_until(events, deadline_ms),
        count_valid(events) >= remaining,
    ensures
        spec_run(v, events).state is Validated,
    decreases events.len(),
{
    let e = events.first();
    let rest = events.drop_first();
    assert(benign_until(rest, deadline_ms)) by {
        assert(forall|i: int| 0 <= i < rest.len() ==> rest[i] == events[i + 1]);
    }
    if is_valid_ack(e) {
        if remaining == 1 {
            let v2 = v.with_state(ValidationState::Validated);
            assert(spec_step(v, e) == v2.state);
            lemma_terminal_absorbing(v2, rest);
        } else {
            let v2 = v.with_state(
                ValidationState::AwaitingResponses {
                    remaining: (remaining - 1) as usize,
                    deadline_ms,
                },
            );
            assert(spec_step(v, e) == v2.state);
            lemma_valid_acks_validate(v2, rest, (remaining - 1) as usize, deadline_ms);
        }
    } else {
        assert(spec_step(v, e) == v.state);
        assert(v.with_state(v.state) == v);
        lemma_valid_acks_validate(v, rest, remaining, deadline_ms);
    }
}

/// Law: one invalid acknowledgment rejects the whole batch. If, while the
/// attempt is still awaiting, a decoded response fails its validity check
/// inside the validation window, the attempt ends `Rejected`, carrying that
/// offending response — whatever arrives afterwards.
pub proof fn lemma_invalid_ack_rejects(
    v: SubscriptionValidation,
    events: Seq<ValidationEvent>,
    remaining: usize,
    deadline_ms: u64,
    r: int,
    at_ms: u64,
    response: String,
)
    requires
        v.state == (ValidationState::AwaitingResponses { remaining, deadline_ms }),
        remaining >= 1,
        0 <= r < events.len(),
        benign_until(events.take(r), deadline_ms),
        count_valid(events.take(r)) < remaining,
        events[r] == (ValidationEvent::Message {
            now_ms: at_ms,
            kind: MessageKind::InvalidResponse(response),
        }),
        at_ms < deadline_ms,
    ensures
        spec_run(v, events).state == (ValidationState::Rejected { response }),
{
    let before = events.take(r);
    let after = events.skip(r);
    assert(events =~= before + after);
    lemma_run_append(v, before, after);
    lemma_benign_run_keeps_awaiting(v, before, remaining, deadline_ms);
    let w = spec_run(v, before);
    assert(after.first() == events[r]);
    assert(spec_step(w, after.first()) == (ValidationState::Rejected { response }));
    let w2 = w.with_state(ValidationState::Rejected { response });
    lemma_terminal_absorbing(w2, after.drop_first());
}

/// Law: a deadline with acknowledgments outstanding times the attempt out.
/// If fewer valid acknowledgments than expected arrive before the clock
/// reaches the deadline, the attempt ends `TimedOut`, reporting exactly how
/// many of the expected responses were never observed.
pub proof fn lemma_deadline_times_out(
    v: SubscriptionValidation,
    events: Seq<ValidationEvent>,
    remaining: usize,
    deadline_ms: u64,
    now_ms: u64,
)
    requires
        v.state == (ValidationState::AwaitingResponses { remaining, deadline_ms }),
        benign_until(events, deadline_ms),
        count_valid(events) < remaining,
        now_ms >= deadline_ms,
    ensures
        spec_run(v, events.push(ValidationEvent::Tick { now_ms })).state == (ValidationState::TimedOut {
            outstanding: (remaining - count_valid(events)) as usize,
        }),
{
    let tick = ValidationEvent::Tick { now_ms };
    assert(events.push(tick) =~= events + seq![tick]);
    lemma_run_append(v, events, seq![tick]);
    lemma_benign_run_keeps_awaiting(v, events, remaining, deadline_ms);
    let w = spec_run(v, events);
    assert(seq![tick].first() == tick);
    assert(seq![tick].drop_first() =~= Seq::<ValidationEvent>::empty());
    let w2 = w.with_state(spec_step(w, tick));
    assert(spec_run(w2, Seq::<ValidationEvent>::empty()) == w2);
    assert(spec_run(w, seq![tick]) == w2);
}

/// Law: a whole attempt validates, end to end. A fresh machine whose
/// requests are transmitted and that then observes at least `expected` valid
/// acknowledgments inside the validation window — in any order, interleaved
/// with undecodable noise and spurious ticks — ends `Validated`. With zero
/// expected responses the attempt validates as soon as it starts awaiting.
pub proof fn lemma_attempt_validates(
    expected: usize,
    timeout_ms: u64,
    start_ms: u64,
    events: Seq<ValidationEvent>,
)
    requires
        benign_until(events, deadline_after(start_ms, timeout_ms)),
        count_valid(events) >= expected,
    ensures
        spec_run(
            SubscriptionValidation { expected, timeout_ms, state: ValidationState::Idle },
            seq![
                ValidationEvent::RequestsTransmitted,
                ValidationEvent::AwaitBegun { now_ms: start_ms },
            ] + events,
        ).state is Validated,
{
    let v0 = SubscriptionValidation { expected, timeout_ms, state: ValidationState::Idle };
    let prefix = seq![
        ValidationEvent::RequestsTransmitted,
        ValidationEvent::AwaitBegun { now_ms: start_ms },
    ];
    lemma_run_append(v0, prefix, events);
    let v1 = v0.with_state(ValidationState::RequestsSent);
    assert(prefix.first() == ValidationEvent::RequestsTransmitted);
    assert(spec_step(v0, prefix.first()) == v1.state);
    let awaited = prefix.drop_first();
    assert(awaited =~= seq![ValidationEvent::AwaitBegun { now_ms: start_ms }]);
    let v2 = v1.with_state(spec_step(v1, ValidationEvent::AwaitBegun { now_ms: start_ms }));
    assert(awaited.first() == (ValidationEvent::AwaitBegun { now_ms: start_ms }));
    assert(awaited.drop_first() =~= Seq::<ValidationEvent>::empty());
    assert(spec_run(v0, prefix) == spec_run(v1, awaited));
    assert(spec_run(v1, awaited) == spec_run(v2, awaited.drop_first()));
    assert(spec_run(v2, Seq::<ValidationEvent>::empty()) == v2);
    assert(spec_run(v0, prefix) == v2);
    let deadline_ms = deadline_after(start_ms, timeout_ms);
    if expected == 0 {
        assert(v2.state == ValidationState::Validated);
        lemma_terminal_absorbing(v2, events);
    } else {
        assert(v2.state == (ValidationState::AwaitingResponses { remaining: expected, deadline_ms }));
        lemma_valid_acks_validate(v2, events, expected, deadline_ms);
    }
}

impl SubscriptionValidation {
    /// The same machine in the given state.
    pub open spec fn with_state(self, state: ValidationState) -> SubscriptionValidation {
        SubscriptionValidation { state, ..self }
    }

    /// A fresh attempt with the given connector parameters, starting idle.
    pub fn new(expected: usize, timeout_ms: u64) -> (v: SubscriptionValidation)
        ensures
            v == (SubscriptionValidation {
                expected,
                timeout_ms,
                state: ValidationState::Idle,
            }),
    {
        SubscriptionValidation { expected, timeout_ms, state: ValidationState::Idle }
    }

    /// Observe one event and take the protocol's transition for it.
    pub fn step(&mut self, event: &ValidationEvent)
        ensures
            *final(self) == old(self).with_state(spec_step(*old(self), *event)),
    {
        let next: Option<ValidationState> = match (&self.state, event) {
            (ValidationState::Idle, ValidationEvent::RequestsTransmitted) => {
                Some(ValidationState::RequestsSent)
            },
            (ValidationState::RequestsSent, ValidationEvent::AwaitBegun { now_ms }) => {
                if self.expected == 0 {
                    Some(ValidationState::Validated)
                } else {
                    let deadline_ms: u64 = if *now_ms <= u64::MAX - self.timeout_ms {
                        *now_ms + self.timeout_ms
                    } else {
                        u64::MAX
                    };
                    Some(
                        ValidationState::AwaitingResponses {
                            remaining: self.expected,
                            deadline_ms,
                        },
                    )
                }
            },
            (
                ValidationState::AwaitingResponses { remaining, deadline_ms },
                ValidationEvent::Message { now_ms, kind },
            ) => {
                if *now_ms >= *deadline_ms {
                    Some(ValidationState::TimedOut { outstanding: *remaining })
                } else {
                    match kind {
                        MessageKind::NotAResponse => None,
                        MessageKind::InvalidResponse(response) => Some(
                            ValidationState::Rejected { response: response.clone() },
                        ),
                        MessageKind::ValidResponse => {
                            if *remaining <= 1 {
                                Some(ValidationState::Validated)
                            } else {
                                Some(
                                    ValidationState::AwaitingResponses {
                                        remaining: *remaining - 1,
                                        deadline_ms: *deadline_ms,
                                    },
                                )
                            }
                        },
                    }
                }
            },
            (
                ValidationState::AwaitingResponses { remaining, deadline_ms },
                ValidationEvent::Tick { now_ms },
            ) => {
                if *now_ms >= *deadline_ms {
                    Some(ValidationState::TimedOut { outstanding: *remaining })
                } else {
                    None
                }
            },
            _ => None,
        };
        match next {
            Some(state) => {
                self.state = state;
            },
            None => {
                proof {
                    assert(old(self).with_state(spec_step(*old(self), *event)) == *old(self));
                }
            },
        }
    }

    /// Observe a sequence of events in order.
    pub fn run(&mut self, events: &Vec<ValidationEvent>)
        ensures
            *final(self) == spec_run(*old(self), events@),
    {
        let n = events.len();
        let mut i: usize = 0;
        proof {
            assert(events@.skip(0) =~= events@);
        }
        while i < n
            invariant
                i <= n,
                n == events@.len(),
                spec_run(*old(self), events@) == spec_run(*self, events@.skip(i as int)),
            decreases n - i,
        {
            proof {
                assert(events@.skip(i as int).first() == events@[i as int]);
                assert(events@.skip(i as int).drop_first() =~= events@.skip(i as int + 1));
            }
            self.step(&events[i]);
            i += 1;
        }
        proof {
            assert(events@.skip(n as int) =~= Seq::<ValidationEvent>::empty());
        }
    }

    /// The typed result of the attempt: `None` while still in progress,
    /// otherwise success or the distinct failure for rejection and timeout,
    /// so operators can tell "exchange said no" from "exchange never
    /// answered". A rejection carries the offending response.
    pub fn outcome(&self) -> (r: Option<Result<(), ConnectionError>>)
        ensures
            match self.state {
                ValidationState::Validated => r == Some::<Result<(), ConnectionError>>(Ok(())),
                ValidationState::Rejected { response } => r matches Some(
                    Err(ConnectionError::SubscriptionRejected { response: offender }),
                ) && offender == response,
                ValidationState::TimedOut { outstanding } => r matches Some(
                    Err(ConnectionError::SubscriptionTimeout { outstanding: o }),
                ) && o == outstanding,
                _ => r is None,
            },
    {
        match &self.state {
            ValidationState::Validated => Some(Ok(())),
            ValidationState::Rejected { response } => Some(
                Err(ConnectionError::SubscriptionRejected { response: response.clone() }),
            ),
            ValidationState::TimedOut { outstanding } => Some(
                Err(ConnectionError::SubscriptionTimeout { outstanding: *outstanding }),
            ),
            _ => None,
        }
    }
}

} // verus!
