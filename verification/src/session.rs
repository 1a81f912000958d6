//! A whole monitoring session over a sequence of inputs.
//!
//! The tap thread's life is a loop: take the next thing that happened — a
//! raw event from the host, or the stop flag being cleared — and act on
//! it. `run_tap_session` is that loop over an explicit input sequence, so
//! the ordering guarantees of the capture layer are stated once, for every
//! session: notifications come out in exactly the order the key-downs came
//! in, one per key-down observed while listening, and none at all after a
//! stop request.

use vstd::prelude::*;

use crate::keys::Event;
use crate::monitor::KeyboardMonitor;
use crate::monitor::RawEvent;
use crate::monitor::decide_tap_event;
use crate::monitor::spec_notification;

verus! {

/// One thing a session reacts to, in the order it happened: a raw event
/// observed by the tap, or a stop request from another thread.
#[derive(Debug, Clone, Copy, PartialEq, Eq, Structural)]
pub enum SessionInput {
    Observed(RawEvent),
    StopRequest,
}

/// The notifications a session owes for its inputs: for each raw event,
/// what the tap decision yields at that moment, in input order; a stop
/// request clears the listening flag for everything after it.
pub open spec fn spec_session_deliveries(listening: bool, inputs: Seq<SessionInput>) -> Seq<
    Event,
>
    decreases inputs.len(),
{
    if inputs.len() == 0 {
        Seq::empty()
    } else {
        match inputs[0] {
            SessionInput::Observed(raw) => {
                let rest = spec_session_deliveries(listening, inputs.drop_first());
                match spec_notification(listening, raw) {
                    Some(e) => seq![e] + rest,
                    None => rest,
                }
            },
            SessionInput::StopRequest => spec_session_deliveries(false, inputs.drop_first()),
        }
    }
}

/// The listening flag once all inputs are processed: unchanged unless some
/// input was a stop request.
pub open spec fn spec_session_listening(listening: bool, inputs: Seq<SessionInput>) -> bool
    decreases inputs.len(),
{
    if inputs.len() == 0 {
        listening
    } else {
        match inputs[0] {
            SessionInput::Observed(_) => spec_session_listening(listening, inputs.drop_first()),
            SessionInput::StopRequest => spec_session_listening(false, inputs.drop_first()),
        }
    }
}

/// A session that was never listening delivers nothing, whatever its
/// inputs.
pub proof fn lemma_not_listening_delivers_nothing(inputs: Seq<SessionInput>)
    ensures
        spec_session_deliveries(false, inputs) == Seq::<Event>::empty(),
    decreases inputs.len(),
{
    if inputs.len() > 0 {
        lemma_not_listening_delivers_nothing(inputs.drop_first());
        match inputs[0] {
            SessionInput::Observed(raw) => {
                assert(spec_notification(false, raw) is None);
            },
            SessionInput::StopRequest => {},
        }
    }
}

/// At most one notification per input: no event is ever delivered twice,
/// and no notification appears that no raw event accounts for.
pub proof fn lemma_at_most_one_delivery_per_input(listening: bool, inputs: Seq<SessionInput>)
    ensures
        spec_session_deliveries(listening, inputs).len() <= inputs.len(),
    decreases inputs.len(),
{
    if inputs.len() > 0 {
        match inputs[0] {
            SessionInput::Observed(_) => {
                lemma_at_most_one_delivery_per_input(listening, inputs.drop_first());
            },
            SessionInput::StopRequest => {
                lemma_at_most_one_delivery_per_input(false, inputs.drop_first());
            },
        }
    }
}

/// Once a stop request is among the inputs, nothing after it is
/// delivered: the session's deliveries are exactly those of the inputs
/// before the first stop request.
pub proof fn lemma_nothing_delivered_after_stop(
    listening: bool,
    before: Seq<SessionInput>,
    after: Seq<SessionInput>,
)
    ensures
        !spec_session_listening(listening, before + seq![SessionInput::StopRequest]),
        spec_session_deliveries(
            listening,
            before + seq![SessionInput::StopRequest] + after,
        ) == spec_session_deliveries(listening, before + seq![SessionInput::StopRequest]),
    decreases before.len(),
{
    let stopped = before + seq![SessionInput::StopRequest];
    let whole = stopped + after;
    assert(stopped.len() == before.len() + 1);
    if before.len() == 0 {
        assert(stopped[0] == SessionInput::StopRequest);
        assert(whole[0] == SessionInput::StopRequest);
        assert(whole.drop_first() =~= after);
        assert(stopped.drop_first() =~= Seq::<SessionInput>::empty());
        lemma_not_listening_delivers_nothing(after);
        assert(spec_session_listening(listening, stopped) == spec_session_listening(
            false,
            Seq::<SessionInput>::empty(),
        ));
        assert(spec_session_deliveries(listening, whole) == spec_session_deliveries(false, after));
        assert(spec_session_deliveries(listening, stopped) == spec_session_deliveries(
            false,
            Seq::<SessionInput>::empty(),
        ));
    } else {
        assert(stopped[0] == before[0]);
        assert(whole[0] == before[0]);
        let before1 = before.drop_first();
        let stopped1 = before1 + seq![SessionInput::StopRequest];
        assert(whole.drop_first() =~= stopped1 + after);
        assert(stopped.drop_first() =~= stopped1);
        match before[0] {
            SessionInput::Observed(raw) => {
                lemma_nothing_delivered_after_stop(listening, before1, after);
                assert(spec_session_listening(listening, stopped) == spec_session_listening(
                    listening,
                    stopped1,
                ));
                assert(spec_session_deliveries(listening, whole.drop_first())
                    == spec_session_deliveries(listening, stopped.drop_first()));
            },
            SessionInput::StopRequest => {
                lemma_nothing_delivered_after_stop(false, before1, after);
                assert(spec_session_listening(listening, stopped) == spec_session_listening(
                    false,
                    stopped1,
                ));
                assert(spec_session_deliveries(false, whole.drop_first())
                    == spec_session_deliveries(false, stopped.drop_first()));
            },
        }
    }
}

/// Run one monitoring session over its inputs, in order.
///
/// The result is exactly the notifications the session owes: one per
/// key-down observed while listening, translated by the lookup table, in
/// input order (FIFO, no reordering, no batching), and none once a stop
/// request has been processed. The monitor's flag afterwards reflects
/// whether a stop request was among the inputs.
pub fn run_tap_session(monitor: &mut KeyboardMonitor, inputs: &Vec<SessionInput>) -> (delivered:
    Vec<Event>)
    ensures
        delivered@ == spec_session_deliveries(old(monitor)@, inputs@),
        final(monitor)@ == spec_session_listening(old(monitor)@, inputs@),
{
    let ghost initial: bool = monitor@;
    let mut delivered: Vec<Event> = Vec::new();
    let mut i: usize = 0;
    proof {
        assert(inputs@.skip(0) =~= inputs@);
        assert(delivered@ + spec_session_deliveries(initial, inputs@) =~= spec_session_deliveries(
            initial,
            inputs@,
        ));
    }
    while i < inputs.len()
        invariant
            0 <= i <= inputs.len(),
            spec_session_deliveries(initial, inputs@) == delivered@ + spec_session_deliveries(
                monitor@,
                inputs@.skip(i as int),
            ),
            spec_session_listening(initial, inputs@) == spec_session_listening(
                monitor@,
                inputs@.skip(i as int),
            ),
        decreases inputs.len() - i,
    {
        let ghost pending = inputs@.skip(i as int);
        proof {
            assert(pending[0] == inputs@[i as int]);
            assert(pending.drop_first() =~= inputs@.skip(i as int + 1));
        }
        match inputs[i] {
            SessionInput::Observed(raw) => {
                let decision = decide_tap_event(monitor.is_listening(), raw);
                match decision.notification {
                    Some(event) => {
                        proof {
                            assert(spec_session_deliveries(monitor@, pending) == seq![event]
                                + spec_session_deliveries(monitor@, pending.drop_first()));
                            assert(delivered@ + spec_session_deliveries(monitor@, pending)
                                =~= (delivered@ + seq![event]) + spec_session_deliveries(
                                monitor@,
                                pending.drop_first(),
                            ));
                        }
                        delivered.push(event);
                    },
                    None => {},
                }
            },
            SessionInput::StopRequest => {
                monitor.stop();
            },
        }
        i = i + 1;
    }
    proof {
        assert(inputs@.skip(i as int) =~= Seq::<SessionInput>::empty());
    }
    delivered
}

} // verus!
