//! Subscription handshake validator: a state machine that consumes the
//! validation phase of a transport stream and resolves it to either the
//! original subscription map (now live) or a typed failure.
//!
//! The transport itself is an external collaborator. It is abstracted as a
//! sequence of [`ValidationEvent`]s: each event is the resolution of one
//! wait — the next frame, classified by the parser, or the handshake
//! deadline firing first. A driver owning a live connection feeds events to
//! [`step`] one at a time; [`WebSocketSubValidator::validate`] runs the same
//! machine over a whole event sequence.
use vstd::prelude::*;
use crate::error::SubscribeError;
use crate::subscription::SubscriptionMap;

verus! {

/// One subscription acknowledgement, decoded per-exchange; validatable on
/// its own, independent of every other frame.
pub trait Validator: Sized {
    /// Whether the exchange accepted the subscription.
    spec fn is_valid(&self) -> bool;

    /// The exchange's diagnostic text when it rejected the subscription.
    spec fn failure_reason(&self) -> Seq<char>;

    fn validate(self) -> (r: Result<Self, SubscribeError>)
        ensures
            self.is_valid() ==> (r matches Ok(v) && v == self),
            !self.is_valid() ==> (r matches Err(e)
                && e matches SubscribeError::Rejected { reason } && reason@ == self.failure_reason()),
    ;
}

/// The resolution of one wait during the handshake, in the order the
/// transport produced it.
#[derive(PartialEq, Eq, Debug)]
pub enum ValidationEvent<R> {
    /// The handshake deadline fired before the next frame arrived.
    Timeout,
    /// The transport stream ended.
    StreamEnded,
    /// A frame parsed as a subscription acknowledgement.
    Response(R),
    /// A frame that failed to parse as an acknowledgement (early market
    /// data, unrelated payloads).
    Malformed,
    /// A close frame delivered by the transport.
    CloseFrame { reason: String },
    /// A control frame the parser yields nothing for (ping, pong).
    Control,
}

/// Validator state after consuming a prefix of the event sequence.
#[derive(PartialEq, Eq, Debug)]
pub enum ValidatorState {
    /// Still waiting; `success_responses` acknowledgements confirmed so far.
    AwaitingResponses { success_responses: usize },
    /// All expected acknowledgements confirmed.
    Validated { success_responses: usize },
    /// The handshake failed; terminal for this connection attempt.
    Failed(SubscribeError),
}

/// Specification-level result of consuming one event.
pub enum SpecStep {
    KeepWaiting(nat),
    Done(SpecOutcome),
}

/// Specification-level terminal outcome of a handshake.
pub enum SpecOutcome {
    Validated(nat),
    TimedOut(u64),
    Terminated,
    Rejected(Seq<char>),
    Closed(Seq<char>),
}

/// Transition on one consumed event, for a validator still awaiting
/// responses (`success < expected`).
pub open spec fn spec_step<R: Validator>(
    success: nat,
    timeout_ms: u64,
    ev: ValidationEvent<R>,
) -> SpecStep {
    match ev {
        ValidationEvent::Timeout => SpecStep::Done(SpecOutcome::TimedOut(timeout_ms)),
        ValidationEvent::StreamEnded => SpecStep::Done(SpecOutcome::Terminated),
        ValidationEvent::Response(r) => if r.is_valid() {
            SpecStep::KeepWaiting(success + 1)
        } else {
            SpecStep::Done(SpecOutcome::Rejected(r.failure_reason()))
        },
        ValidationEvent::Malformed => SpecStep::KeepWaiting(success),
        ValidationEvent::CloseFrame { reason } => SpecStep::Done(SpecOutcome::Closed(reason@)),
        ValidationEvent::Control => SpecStep::KeepWaiting(success),
    }
}

/// Outcome and number of events consumed by a whole handshake run:
/// `Validated` as soon as the threshold is met (before consuming anything
/// further), `Terminated` when the events run out while still waiting.
pub open spec fn run_spec<R: Validator>(
    success: nat,
    expected: nat,
    timeout_ms: u64,
    events: Seq<ValidationEvent<R>>,
) -> (SpecOutcome, nat)
    decreases events.len(),
{
    if success >= expected {
        (SpecOutcome::Validated(success), 0)
    } else if events.len() == 0 {
        (SpecOutcome::Terminated, 0)
    } else {
        match spec_step(success, timeout_ms, events[0]) {
            SpecStep::KeepWaiting(s2) => {
                let (o, n) = run_spec(s2, expected, timeout_ms, events.drop_first());
                (o, n + 1)
            },
            SpecStep::Done(o) => (o, 1),
        }
    }
}

/// How an executable state reports a specification-level outcome.
pub open spec fn state_matches(r: ValidatorState, o: SpecOutcome) -> bool {
    match o {
        SpecOutcome::Validated(n) => r matches ValidatorState::Validated { success_responses }
            && success_responses == n,
        SpecOutcome::TimedOut(t) => r == ValidatorState::Failed(SubscribeError::Timeout { timeout_ms: t }),
        SpecOutcome::Terminated => r == ValidatorState::Failed(SubscribeError::StreamTerminated),
        SpecOutcome::Rejected(s) => r matches ValidatorState::Failed(e)
            && e matches SubscribeError::Rejected { reason } && reason@ == s,
        SpecOutcome::Closed(s) => r matches ValidatorState::Failed(e)
            && e matches SubscribeError::ClosedDuringHandshake { reason } && reason@ == s,
    }
}

/// Consume one event. Checked before consuming: a validator whose threshold
/// is already met transitions to `Validated` immediately and the event has
/// no effect.
pub fn step<R: Validator>(
    success_responses: usize,
    expected_responses: usize,
    timeout_ms: u64,
    event: ValidationEvent<R>,
) -> (r: ValidatorState)
    ensures
        success_responses >= expected_responses ==> r == (ValidatorState::Validated {
            success_responses,
        }),
        success_responses < expected_responses ==> match spec_step(
            success_responses as nat,
            timeout_ms,
            event,
        ) {
            SpecStep::KeepWaiting(s) => r matches ValidatorState::AwaitingResponses {
                success_responses: c,
            } && c == s,
            SpecStep::Done(o) => state_matches(r, o),
        },
{
    if success_responses >= expected_responses {
        return ValidatorState::Validated { success_responses };
    }
    match event {
        ValidationEvent::Timeout => ValidatorState::Failed(SubscribeError::Timeout { timeout_ms }),
        ValidationEvent::StreamEnded => ValidatorState::Failed(SubscribeError::StreamTerminated),
        ValidationEvent::Response(resp) => match resp.validate() {
            Ok(_) => ValidatorState::AwaitingResponses {
                success_responses: success_responses + 1,
            },
            Err(e) => ValidatorState::Failed(e),
        },
        ValidationEvent::Malformed => ValidatorState::AwaitingResponses { success_responses },
        ValidationEvent::CloseFrame { reason } => ValidatorState::Failed(
            SubscribeError::ClosedDuringHandshake { reason },
        ),
        ValidationEvent::Control => ValidatorState::AwaitingResponses { success_responses },
    }
}

/// An acknowledgement frame the exchange accepted.
pub open spec fn is_valid_ack<R: Validator>(ev: ValidationEvent<R>) -> bool {
    ev matches ValidationEvent::Response(r) && r.is_valid()
}

/// Handshake noise: a frame consumed and skipped without any effect.
pub open spec fn is_noise<R: Validator>(ev: ValidationEvent<R>) -> bool {
    ev is Malformed || ev is Control
}

/// Number of valid acknowledgements in an event sequence.
pub open spec fn count_acks<R: Validator>(events: Seq<ValidationEvent<R>>) -> nat
    decreases events.len(),
{
    if events.len() == 0 {
        0
    } else {
        (if is_valid_ack(events[0]) {
            1nat
        } else {
            0nat
        }) + count_acks(events.drop_first())
    }
}

/// Law: with `expected` acknowledgements required and `success` already
/// confirmed, a run whose next `k == expected - success` events are all
/// valid acknowledgements reaches `Validated`, consuming exactly those `k`
/// events — whatever frames follow are never read.
pub proof fn lemma_valid_acks_validate<R: Validator>(
    success: nat,
    expected: nat,
    timeout_ms: u64,
    events: Seq<ValidationEvent<R>>,
    k: nat,
)
    requires
        success + k == expected,
        k <= events.len(),
        forall|i: int| 0 <= i < k ==> is_valid_ack(events[i]),
    ensures
        run_spec(success, expected, timeout_ms, events) == (SpecOutcome::Validated(expected), k),
    decreases k,
{
    if k > 0 {
        assert(is_valid_ack(events[0]));
        let rest = events.drop_first();
        assert forall|i: int| 0 <= i < k - 1 implies is_valid_ack(rest[i]) by {
            assert(rest[i] == events[i + 1]);
        }
        lemma_valid_acks_validate(success + 1, expected, timeout_ms, rest, (k - 1) as nat);
    }
}

/// Law: a timeout that fires while acknowledgements are still outstanding
/// fails the handshake with the configured deadline; it never validates.
pub proof fn lemma_timeout_fails<R: Validator>(
    success: nat,
    expected: nat,
    timeout_ms: u64,
    events: Seq<ValidationEvent<R>>,
)
    requires
        success < expected,
        events.len() > 0,
        events[0] is Timeout,
    ensures
        run_spec(success, expected, timeout_ms, events) == (
            SpecOutcome::TimedOut(timeout_ms),
            1nat,
        ),
{
}

/// Law: one rejected acknowledgement aborts the whole handshake, wherever
/// it stands: if the frames before position `j` are only valid
/// acknowledgements and noise, too few to meet the threshold, and the frame
/// at `j` is a rejection, the run fails with the exchange's reason and
/// consumes nothing past `j`.
pub proof fn lemma_rejection_aborts<R: Validator>(
    success: nat,
    expected: nat,
    timeout_ms: u64,
    events: Seq<ValidationEvent<R>>,
    j: int,
)
    requires
        0 <= j < events.len(),
        forall|i: int| 0 <= i < j ==> is_valid_ack(events[i]) || is_noise(events[i]),
        success + count_acks(events.take(j)) < expected,
        events[j] matches ValidationEvent::Response(r) && !r.is_valid(),
    ensures
        events[j] matches ValidationEvent::Response(r) && run_spec(
            success,
            expected,
            timeout_ms,
            events,
        ) == (SpecOutcome::Rejected(r.failure_reason()), (j + 1) as nat),
    decreases j,
{
    if j == 0 {
        assert(events.take(0) =~= Seq::<ValidationEvent<R>>::empty());
    } else {
        let rest = events.drop_first();
        assert(events.take(j).drop_first() =~= rest.take(j - 1));
        assert(events.take(j)[0] == events[0]);
        assert forall|i: int| 0 <= i < j - 1 implies is_valid_ack(rest[i]) || is_noise(rest[i]) by {
            assert(rest[i] == events[i + 1]);
        }
        assert(rest[j - 1] == events[j]);
        if is_valid_ack(events[0]) {
            lemma_rejection_aborts(success + 1, expected, timeout_ms, rest, j - 1);
        } else {
            lemma_rejection_aborts(success, expected, timeout_ms, rest, j - 1);
        }
    }
}

/// Law: a malformed or control frame is skipped — before any success and
/// after one alike — leaving the success count, and therefore the outcome
/// of the rest of the run, unchanged; only one more event is consumed.
pub proof fn lemma_noise_skipped<R: Validator>(
    success: nat,
    expected: nat,
    timeout_ms: u64,
    events: Seq<ValidationEvent<R>>,
)
    requires
        success < expected,
        events.len() > 0,
        is_noise(events[0]),
    ensures
        run_spec(success, expected, timeout_ms, events).0 == run_spec(
            success,
            expected,
            timeout_ms,
            events.drop_first(),
        ).0,
        run_spec(success, expected, timeout_ms, events).1 == run_spec(
            success,
            expected,
            timeout_ms,
            events.drop_first(),
        ).1 + 1,
{
}

/// Law: a close frame during the handshake is never skipped: it fails the
/// run at once with the close reason, whatever the success count.
pub proof fn lemma_close_frame_aborts<R: Validator>(
    success: nat,
    expected: nat,
    timeout_ms: u64,
    events: Seq<ValidationEvent<R>>,
)
    requires
        success < expected,
        events.len() > 0,
        events[0] matches ValidationEvent::CloseFrame { .. },
    ensures
        events[0] matches ValidationEvent::CloseFrame { reason } && run_spec(
            success,
            expected,
            timeout_ms,
            events,
        ) == (SpecOutcome::Closed(reason@), 1nat),
{
}

/// Runs the handshake validation protocol over an event sequence.
#[derive(Copy, Clone, PartialEq, Eq, Structural, Debug)]
pub struct WebSocketSubValidator;

impl WebSocketSubValidator {
    /// Consume events in arrival order until the expected number of
    /// acknowledgements is confirmed or the handshake fails. On success the
    /// map passed in is returned unchanged.
    pub fn validate<Kind, R: Validator>(
        map: SubscriptionMap<Kind>,
        expected_responses: usize,
        timeout_ms: u64,
        events: Vec<ValidationEvent<R>>,
    ) -> (r: Result<SubscriptionMap<Kind>, SubscribeError>)
        ensures
            match run_spec(0nat, expected_responses as nat, timeout_ms, events@).0 {
                SpecOutcome::Validated(_) => r matches Ok(m) && m == map,
                SpecOutcome::TimedOut(t) => r == Err::<SubscriptionMap<Kind>, _>(
                    SubscribeError::Timeout { timeout_ms: t },
                ),
                SpecOutcome::Terminated => r == Err::<SubscriptionMap<Kind>, _>(
                    SubscribeError::StreamTerminated,
                ),
                SpecOutcome::Rejected(s) => r matches Err(e)
                    && e matches SubscribeError::Rejected { reason } && reason@ == s,
                SpecOutcome::Closed(s) => r matches Err(e)
                    && e matches SubscribeError::ClosedDuringHandshake { reason } && reason@ == s,
            },
    {
        let ghost all = events@;
        let mut evs = events;
        let mut success_responses: usize = 0;
        loop
            invariant
                all == events@,
                run_spec(success_responses as nat, expected_responses as nat, timeout_ms, evs@).0
                    == run_spec(0nat, expected_responses as nat, timeout_ms, all).0,
            decreases evs@.len(),
        {
            if success_responses >= expected_responses {
                return Ok(map);
            }
            if evs.len() == 0 {
                return Err(SubscribeError::StreamTerminated);
            }
            let ghost pre = evs@;
            let ev = evs.remove(0);
            proof {
                assert(evs@ =~= pre.drop_first());
            }
            match step(success_responses, expected_responses, timeout_ms, ev) {
                ValidatorState::AwaitingResponses { success_responses: s } => {
                    success_responses = s;
                },
                ValidatorState::Validated { success_responses: _ } => {
                    // The threshold was tested before consuming the event,
                    // so `step` cannot report `Validated` here.
                    proof {
                        assert(false);
                    }
                },
                ValidatorState::Failed(e) => {
                    return Err(e);
                },
            }
        }
    }
}

} // verus!
