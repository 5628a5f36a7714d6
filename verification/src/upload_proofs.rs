//! What holds of every upload, proved of the engine's transitions.

use vstd::prelude::*;
use crate::error::{ErrorKind, TransferError};
use crate::retry::Outcome;
use crate::upload::{CreateReply, UploadAction, UploadEvent, UploadPhase, UploadState};

verus! {

/// The state after the events `events`, taken one after the other, and the
/// actions that were handed out along the way, one for each event.
pub open spec fn spec_run(state: UploadState, events: Seq<UploadEvent>) -> (
    UploadState,
    Seq<UploadAction>,
)
    decreases events.len(),
{
    if events.len() == 0 {
        (state, Seq::empty())
    } else {
        let before = spec_run(state, events.drop_last());
        let last = before.0.spec_step(events.last());
        (last.0, before.1.push(last.1))
    }
}

/// The events by which the end of one attempt after the other is reported.
pub open spec fn spec_part_results(outcomes: Seq<Outcome>) -> Seq<UploadEvent> {
    outcomes.map_values(|outcome: Outcome| UploadEvent::PartResult(outcome))
}

/// The part that an action sends, if it sends one.
pub open spec fn spec_sent_part(action: UploadAction) -> Option<int> {
    match action {
        UploadAction::Send { part, .. } => Some(part as int),
        _ => None,
    }
}

/// No event leads out of the states that an upload can be in.
pub proof fn lemma_step_keeps_wf(state: UploadState, event: UploadEvent)
    requires
        state.wf(),
    ensures
        state.spec_step(event).0.wf(),
        state.spec_step(event).0.file_size == state.file_size,
        state.spec_step(event).0.part_size == state.part_size,
        state.spec_step(event).0.policy == state.policy,
{
}

/// A run of events leaves as many actions as it has events, and ends in a
/// state that an upload can be in.
pub proof fn lemma_run_keeps_wf(state: UploadState, events: Seq<UploadEvent>)
    requires
        state.wf(),
    ensures
        spec_run(state, events).0.wf(),
        spec_run(state, events).0.file_size == state.file_size,
        spec_run(state, events).0.part_size == state.part_size,
        spec_run(state, events).0.policy == state.policy,
        spec_run(state, events).1.len() == events.len(),
    decreases events.len(),
{
    if events.len() > 0 {
        lemma_run_keeps_wf(state, events.drop_last());
        lemma_step_keeps_wf(spec_run(state, events.drop_last()).0, events.last());
    }
}

/// One part is out at a time, and the parts go out in ascending order. An
/// action that sends a part sends the part that the upload has reached. That
/// is the first part after the session was made, the same part again after a
/// failed attempt, and the next part only after an attempt that succeeded.
pub proof fn lemma_step_sends_in_order(state: UploadState, event: UploadEvent)
    requires
        state.wf(),
    ensures
        state.spec_step(event).1 matches UploadAction::Send { part, delay_secs } ==> {
            &&& state.spec_step(event).0.phase is Sending
            &&& state.spec_step(event).0.confirmed == part
            &&& state.phase is Negotiating ==> part == 0 && delay_secs == 0
            &&& state.phase matches UploadPhase::Sending { part: current, .. } ==> {
                &&& event matches UploadEvent::PartResult(outcome)
                &&& outcome is Success ==> part == current + 1 && delay_secs == 0
                &&& !(outcome is Success) ==> part == current && delay_secs
                    == state.policy.delay_secs
            }
            &&& state.phase is Negotiating || state.phase is Sending
        },
        state.confirmed <= state.spec_step(event).0.confirmed,
{
    crate::plan::lemma_part_index_bound(
        state.file_size as int,
        state.part_size as int,
        state.part_total(),
    );
}

/// Along every run that begins with the session request, the parts that are
/// sent never go back: an action that sends a part comes after no action that
/// sends a later part.
pub proof fn lemma_parts_are_sent_in_order(state: UploadState, events: Seq<UploadEvent>)
    requires
        state.wf(),
        state.phase is Negotiating,
    ensures
        forall|i: int, j: int|
            #![trigger spec_run(state, events).1[i], spec_run(state, events).1[j]]
            0 <= i < j < events.len() && spec_sent_part(spec_run(state, events).1[i]) is Some
                && spec_sent_part(spec_run(state, events).1[j]) is Some ==> spec_sent_part(
                spec_run(state, events).1[i],
            )->0 <= spec_sent_part(spec_run(state, events).1[j])->0,
{
    lemma_sent_parts_are_reached(state, events);
    let actions = spec_run(state, events).1;
    assert forall|i: int, j: int|
        #![trigger actions[i], actions[j]]
        0 <= i < j < events.len() && spec_sent_part(actions[i]) is Some && spec_sent_part(
            actions[j],
        ) is Some implies spec_sent_part(actions[i])->0 <= spec_sent_part(actions[j])->0 by {
        // The run up to and with event `j` ends in the state that action `j` led to.
        let upto = events.subrange(0, j + 1);
        lemma_run_prefix(state, events, j + 1);
        assert(upto.drop_last() =~= events.subrange(0, j));
        lemma_run_prefix(state, events, j);
        lemma_sent_parts_are_reached(state, events.subrange(0, j));
        lemma_run_keeps_wf(state, events.subrange(0, j));
        let before = spec_run(state, events.subrange(0, j));
        lemma_step_sends_in_order(before.0, events[j]);
        assert(upto.last() == events[j]);
        assert(spec_run(state, upto).1[j] == before.0.spec_step(events[j]).1);
        assert(before.1[i] == actions[i]);
    }
}

/// The actions of a run begin with the actions of each of its prefixes.
pub proof fn lemma_run_prefix(state: UploadState, events: Seq<UploadEvent>, n: int)
    requires
        0 <= n <= events.len(),
    ensures
        spec_run(state, events.subrange(0, n)).1.len() == n,
        forall|i: int|
            0 <= i < n ==> spec_run(state, events.subrange(0, n)).1[i] == #[trigger] spec_run(
                state,
                events,
            ).1[i],
    decreases events.len(),
{
    if n == events.len() {
        assert(events.subrange(0, n) =~= events);
        lemma_run_length(state, events);
    } else {
        assert(events.drop_last().subrange(0, n) =~= events.subrange(0, n));
        lemma_run_prefix(state, events.drop_last(), n);
        lemma_run_length(state, events.drop_last());
    }
}

/// A run hands out one action for each event.
pub proof fn lemma_run_length(state: UploadState, events: Seq<UploadEvent>)
    ensures
        spec_run(state, events).1.len() == events.len(),
    decreases events.len(),
{
    if events.len() > 0 {
        lemma_run_length(state, events.drop_last());
    }
}

/// Along a run that begins with the session request, no part is sent beyond
/// the part that the upload has reached, and none at all before the session.
pub proof fn lemma_sent_parts_are_reached(state: UploadState, events: Seq<UploadEvent>)
    requires
        state.wf(),
        state.phase is Negotiating,
    ensures
        forall|i: int|
            0 <= i < events.len() ==> (spec_sent_part(
                #[trigger] spec_run(state, events).1[i],
            ) matches Some(part) ==> part <= spec_run(state, events).0.confirmed
                && !(spec_run(state, events).0.phase is Negotiating)),
    decreases events.len(),
{
    if events.len() > 0 {
        let before = spec_run(state, events.drop_last());
        lemma_sent_parts_are_reached(state, events.drop_last());
        lemma_run_keeps_wf(state, events.drop_last());
        lemma_step_sends_in_order(before.0, events.last());
        lemma_run_length(state, events.drop_last());
    }
}

/// A part whose every attempt fails in a way that is retried is sent again
/// after each of the first `max_retries` failures, unchanged and after the
/// fixed delay, and the failure after that ends the upload: with the default
/// policy the part is attempted four times, and the transfer is then reported
/// as failed.
pub proof fn lemma_part_is_given_up_after_retries(state: UploadState, outcomes: Seq<Outcome>)
    requires
        state.wf(),
        state.phase matches UploadPhase::Sending { retries, .. } && retries == 0,
        outcomes.len() == state.policy.max_retries + 1,
        forall|i: int| 0 <= i < outcomes.len() ==> (#[trigger] outcomes[i]).spec_is_transient(),
    ensures
        spec_run(state, spec_part_results(outcomes)).0.phase is Failed,
        forall|i: int|
            0 <= i < state.policy.max_retries ==> #[trigger] spec_run(
                state,
                spec_part_results(outcomes),
            ).1[i] == (UploadAction::Send {
                part: state.phase->part,
                delay_secs: state.policy.delay_secs,
            }),
        spec_run(state, spec_part_results(outcomes)).1[state.policy.max_retries as int]
            == UploadAction::Fail(
            TransferError::PartFailed {
                part: (state.phase->part + 1) as u32,
                attempts: (state.policy.max_retries + 1) as u64,
                cause: outcomes.last(),
            },
        ),
{
    let retried = outcomes.drop_last();
    lemma_retries_keep_part(state, retried);
    assert(spec_part_results(outcomes).drop_last() =~= spec_part_results(retried));
    assert(outcomes.last().spec_is_transient());
    let run = spec_run(state, spec_part_results(outcomes));
    assert forall|i: int| 0 <= i < state.policy.max_retries implies #[trigger] run.1[i] == (
    UploadAction::Send { part: state.phase->part, delay_secs: state.policy.delay_secs }) by {
        assert(run.1[i] == spec_run(state, spec_part_results(retried)).1[i]);
    }
}

/// While retries remain, failed attempts that are retried leave the upload at
/// the same part, each answered by sending that part again.
pub proof fn lemma_retries_keep_part(state: UploadState, outcomes: Seq<Outcome>)
    requires
        state.wf(),
        state.phase matches UploadPhase::Sending { retries, .. } && retries == 0,
        outcomes.len() <= state.policy.max_retries,
        forall|i: int| 0 <= i < outcomes.len() ==> (#[trigger] outcomes[i]).spec_is_transient(),
    ensures
        spec_run(state, spec_part_results(outcomes)).0 == (UploadState {
            phase: UploadPhase::Sending {
                part: state.phase->part,
                retries: outcomes.len() as u32,
            },
            ..state
        }),
        spec_run(state, spec_part_results(outcomes)).1.len() == outcomes.len(),
        forall|i: int|
            0 <= i < outcomes.len() ==> #[trigger] spec_run(
                state,
                spec_part_results(outcomes),
            ).1[i] == (UploadAction::Send {
                part: state.phase->part,
                delay_secs: state.policy.delay_secs,
            }),
    decreases outcomes.len(),
{
    if outcomes.len() > 0 {
        let retried = outcomes.drop_last();
        lemma_retries_keep_part(state, retried);
        assert(spec_part_results(outcomes).drop_last() =~= spec_part_results(retried));
        assert(outcomes.last().spec_is_transient());
    }
}

/// Where the server reports a rapid upload, the upload is done at once and
/// reports success, and whatever is reported to the engine afterwards, no part
/// is sent and no finalize call is made.
pub proof fn lemma_rapid_upload_sends_nothing(
    state: UploadState,
    reply: CreateReply,
    later: Seq<UploadEvent>,
)
    requires
        state.wf(),
        state.phase is Negotiating,
        reply.code is None,
        reply.rapid_upload,
    ensures
        spec_run(state, seq![UploadEvent::Session(reply)] + later).0.phase is Done,
        spec_run(state, seq![UploadEvent::Session(reply)] + later).1[0] == UploadAction::Succeed,
        forall|i: int|
            1 <= i <= later.len() ==> #[trigger] spec_run(
                state,
                seq![UploadEvent::Session(reply)] + later,
            ).1[i] == UploadAction::Ignore,
    decreases later.len(),
{
    let first = seq![UploadEvent::Session(reply)];
    if later.len() == 0 {
        reveal_with_fuel(spec_run, 2);
        assert(first + later =~= first);
        assert(first.drop_last() =~= Seq::<UploadEvent>::empty());
        assert(first.last() == UploadEvent::Session(reply));
    } else {
        assert((first + later).drop_last() =~= first + later.drop_last());
        lemma_rapid_upload_sends_nothing(state, reply, later.drop_last());
        lemma_run_length(state, first + later.drop_last());
    }
}

/// A failure of the finalize call is told apart from a failure in the middle
/// of the transfer. The error that says the finalize call failed is handed out
/// only when every part is sent and the finalize call did not succeed; its
/// class is that of a session error. A part that fails for good gives an
/// error of another form and of another class.
pub proof fn lemma_finalize_failure_is_told_apart(state: UploadState, event: UploadEvent)
    requires
        state.wf(),
    ensures
        state.spec_step(event).1 matches UploadAction::Fail(error) ==> {
            &&& error is FinalizeFailed <==> state.phase is Finalizing
            &&& error is FinalizeFailed ==> {
                &&& state.confirmed == state.part_total()
                &&& event matches UploadEvent::FinalizeResult(outcome) && !(outcome is Success)
                    && error->FinalizeFailed_cause == outcome
                &&& error.spec_kind() == ErrorKind::Session
            }
            &&& state.phase is Sending && !(error is MissingUploadTarget) ==> {
                &&& error is PartFailed
                &&& error.spec_kind() == ErrorKind::FatalTransfer
            }
        },
        event matches UploadEvent::FinalizeResult(outcome) ==> (state.phase is Finalizing && !(outcome
            is Success) ==> state.spec_step(event).0.phase is Failed && state.spec_step(event).1
            == UploadAction::Fail(TransferError::FinalizeFailed { cause: outcome })),
{
}

/// Number of actions among `actions` that send part `part`.
pub open spec fn spec_sends(actions: Seq<UploadAction>, part: int) -> int
    decreases actions.len(),
{
    if actions.len() == 0 {
        0
    } else {
        spec_sends(actions.drop_last(), part) + if spec_sent_part(actions.last()) == Some(part) {
            1int
        } else {
            0int
        }
    }
}

/// Whether the state accounts for every time that part `part` was sent. A
/// part beyond the one that the upload has reached was never sent. The part
/// that is out was sent once and once more for each retry. No part was sent
/// more often than the budget allows.
pub open spec fn spec_accounted(state: UploadState, actions: Seq<UploadAction>, part: int) -> bool {
    let sends = spec_sends(actions, part);
    &&& 0 <= sends <= state.policy.max_retries + 1
    &&& state.phase is Negotiating ==> sends == 0
    &&& part > state.confirmed ==> sends == 0
    &&& state.phase matches UploadPhase::Sending { part: current, retries } ==> (current == part
        ==> sends == retries + 1)
}

/// One event keeps the account of every part. Where the event ends the
/// upload because a part has failed for good, the part was sent as often as
/// the error says, which is the whole budget where its last failure was one
/// that is retried.
pub proof fn lemma_step_keeps_account(
    state: UploadState,
    actions: Seq<UploadAction>,
    event: UploadEvent,
    part: int,
)
    requires
        state.wf(),
        0 <= part,
        spec_accounted(state, actions, part),
    ensures
        spec_accounted(state.spec_step(event).0, actions.push(state.spec_step(event).1), part),
        state.spec_step(event).1 matches UploadAction::Fail(
            TransferError::PartFailed { part: failed, attempts, cause },
        ) ==> (failed == part + 1 ==> {
            &&& attempts == spec_sends(actions.push(state.spec_step(event).1), part)
            &&& cause.spec_is_transient() ==> attempts == state.policy.max_retries + 1
        }),
{
    let after = state.spec_step(event);
    let then = actions.push(after.1);
    assert(then.drop_last() =~= actions);
    assert(then.last() == after.1);
    lemma_step_keeps_wf(state, event);
    lemma_step_sends_in_order(state, event);
}

/// The account of every part is right along every run of an upload from its
/// beginning.
pub proof fn lemma_run_keeps_account(state: UploadState, events: Seq<UploadEvent>, part: int)
    requires
        state.wf(),
        state.phase is Negotiating,
        0 <= part,
    ensures
        spec_accounted(spec_run(state, events).0, spec_run(state, events).1, part),
    decreases events.len(),
{
    if events.len() > 0 {
        lemma_run_keeps_account(state, events.drop_last(), part);
        lemma_run_keeps_wf(state, events.drop_last());
        let before = spec_run(state, events.drop_last());
        lemma_step_keeps_account(before.0, before.1, events.last(), part);
    }
}

/// Whatever is reported to the engine, along every run of an upload from
/// its beginning no part is sent more often than once and then `max_retries`
/// times more. Where the run ends with a part that has failed for good on a
/// failure that is retried, the part was sent exactly that often: with the
/// default policy, four times.
pub proof fn lemma_no_part_exceeds_the_retry_budget(
    state: UploadState,
    events: Seq<UploadEvent>,
    part: int,
)
    requires
        state.wf(),
        state.phase is Negotiating,
        0 <= part,
    ensures
        spec_sends(spec_run(state, events).1, part) <= state.policy.max_retries + 1,
        events.len() > 0 ==> (spec_run(state, events).1.last() matches UploadAction::Fail(
            TransferError::PartFailed { part: failed, attempts, cause },
        ) ==> (failed == part + 1 && cause.spec_is_transient() ==> attempts
            == state.policy.max_retries + 1 && attempts == spec_sends(
            spec_run(state, events).1,
            part,
        ))),
{
    lemma_run_keeps_account(state, events, part);
    lemma_run_keeps_wf(state, events);
    if events.len() > 0 {
        lemma_run_keeps_account(state, events.drop_last(), part);
        lemma_run_keeps_wf(state, events.drop_last());
        let before = spec_run(state, events.drop_last());
        lemma_step_keeps_account(before.0, before.1, events.last(), part);
    }
}

} // verus!
