//! What holds of every download, proved of the engine's transitions.

use vstd::prelude::*;
use crate::download::{ChunkFailure, DownloadAction, DownloadState, Slot};
use crate::plan::{lemma_part_index_bound, spec_part_end, spec_part_start};
use crate::retry::{Outcome, RetryPolicy};

verus! {

/// The state after the events `events`, taken one after the other, each the
/// end of an attempt at a chunk, and the actions that were handed out along
/// the way, one for each event.
pub open spec fn spec_run(state: DownloadState, events: Seq<(usize, Outcome)>) -> (
    DownloadState,
    Seq<DownloadAction>,
)
    decreases events.len(),
{
    if events.len() == 0 {
        (state, Seq::empty())
    } else {
        let before = spec_run(state, events.drop_last());
        let last = before.0.spec_step(events.last().0, events.last().1);
        (last.0, before.1.push(last.1))
    }
}

/// The events by which the end of one attempt after the other at chunk `part`
/// is reported.
pub open spec fn spec_chunk_results(part: usize, outcomes: Seq<Outcome>) -> Seq<(usize, Outcome)> {
    outcomes.map_values(|outcome: Outcome| (part, outcome))
}

/// A download begins in a state that a download can be in, with no more
/// transfers in flight than the limit allows.
pub proof fn lemma_initial_state_is_wf(
    total_size: u64,
    start_offset: u64,
    part_size: u64,
    limit: usize,
    policy: RetryPolicy,
)
    requires
        part_size > 0,
        limit > 0,
        start_offset <= total_size,
        crate::plan::spec_part_count(total_size - start_offset, part_size as int) <= u32::MAX,
    ensures
        DownloadState::spec_initial(total_size, start_offset, part_size, limit, policy).wf(),
        DownloadState::spec_initial(
            total_size,
            start_offset,
            part_size,
            limit,
            policy,
        ).in_flight.len() <= limit,
{
}

/// No event leads out of the states that a download can be in: whatever is
/// reported, and in whatever order, no more transfers are in flight
/// afterwards than the limit allows.
pub proof fn lemma_step_keeps_wf(state: DownloadState, part: usize, outcome: Outcome)
    requires
        state.wf(),
    ensures
        state.spec_step(part, outcome).0.wf(),
        state.spec_step(part, outcome).0.in_flight.len() <= state.limit,
        state.spec_step(part, outcome).0.limit == state.limit,
        state.spec_step(part, outcome).0.policy == state.policy,
        state.spec_step(part, outcome).0.total_size == state.total_size,
        state.spec_step(part, outcome).0.part_size == state.part_size,
        state.spec_step(part, outcome).0.start_offset == state.start_offset,
{
    if state.holds(part) {
        let i = state.slot_index(part);
        assert(0 <= i < state.in_flight.len() && state.in_flight[i].part == part);
    }
}

/// Along every run of events, the number of chunk transfers in flight never
/// exceeds the limit, however many chunks there are.
pub proof fn lemma_concurrency_is_bounded(state: DownloadState, events: Seq<(usize, Outcome)>)
    requires
        state.wf(),
    ensures
        spec_run(state, events).0.wf(),
        spec_run(state, events).0.in_flight.len() <= state.limit,
        spec_run(state, events).0.limit == state.limit,
        spec_run(state, events).0.policy == state.policy,
        spec_run(state, events).0.total_size == state.total_size,
        spec_run(state, events).0.part_size == state.part_size,
        spec_run(state, events).0.start_offset == state.start_offset,
        spec_run(state, events).1.len() == events.len(),
    decreases events.len(),
{
    if events.len() > 0 {
        lemma_concurrency_is_bounded(state, events.drop_last());
        lemma_step_keeps_wf(
            spec_run(state, events.drop_last()).0,
            events.last().0,
            events.last().1,
        );
    }
}

/// The byte range of every chunk of the plan lies in the remaining range.
pub proof fn lemma_chunk_lies_in_remaining_range(state: DownloadState, part: int)
    requires
        state.wf(),
        0 <= part < state.part_total(),
    ensures
        state.start_offset <= spec_part_start(
            state.start_offset as int,
            state.part_size as int,
            part,
        ) <= spec_part_end(
            state.start_offset as int,
            state.part_size as int,
            state.total_size as int,
            part,
        ) < state.total_size,
{
    let span = state.total_size - state.start_offset;
    let size = state.part_size as int;
    lemma_part_index_bound(span, size, part);
    assert(part * size >= 0 && (part + 1) * size == part * size + size) by (nonlinear_arith)
        requires
            part >= 0,
            size > 0,
    ;
}

/// Requests are made for the remaining range only. A chunk that the engine
/// asks to read is a chunk of the plan, and its bytes lie between the resume
/// offset and the end of the file. A chunk is read for the first time when it
/// is handed out, which happens in ascending order and once for each chunk;
/// any other read repeats a chunk in flight after the fixed delay.
pub proof fn lemma_requests_stay_in_remaining_range(
    state: DownloadState,
    part: usize,
    outcome: Outcome,
)
    requires
        state.wf(),
    ensures
        state.spec_step(part, outcome).1 matches DownloadAction::Fetch { part: asked, delay_secs }
            ==> {
            &&& asked < state.part_total()
            &&& state.start_offset <= spec_part_start(
                state.start_offset as int,
                state.part_size as int,
                asked as int,
            )
            &&& spec_part_end(
                state.start_offset as int,
                state.part_size as int,
                state.total_size as int,
                asked as int,
            ) < state.total_size
            &&& state.spec_step(part, outcome).0.holds(asked)
            &&& if state.holds(asked) {
                &&& asked == part
                &&& delay_secs == state.policy.delay_secs
                &&& state.spec_step(part, outcome).0.next == state.next
            } else {
                &&& asked == state.next
                &&& delay_secs == 0
                &&& state.spec_step(part, outcome).0.next == state.next + 1
            }
        },
        !(state.spec_step(part, outcome).1 is Fetch) ==> state.spec_step(part, outcome).0.next
            == state.next,
{
    lemma_step_keeps_wf(state, part, outcome);
    let after = state.spec_step(part, outcome);
    if state.holds(part) {
        let i = state.slot_index(part);
        assert(0 <= i < state.in_flight.len() && state.in_flight[i].part == part);
        match after.1 {
            DownloadAction::Fetch { part: asked, delay_secs } => {
                if asked == part && after.0.next == state.next {
                    assert(after.0.in_flight[i].part == asked);
                } else {
                    let last = after.0.in_flight.len() - 1;
                    assert(after.0.in_flight[last].part == asked);
                    assert(!state.holds(asked)) by {
                        if state.holds(asked) {
                            let j = state.slot_index(asked);
                            assert(state.in_flight[j].part < state.next);
                        }
                    }
                }
                lemma_chunk_lies_in_remaining_range(state, asked as int);
            },
            _ => {},
        }
    }
}

/// Along a whole download, whatever is reported and in whatever order,
/// every chunk that the engine ever asks for is a chunk of the plan, and its
/// bytes lie between the resume offset and the end of the file.
pub proof fn lemma_every_request_stays_in_remaining_range(
    state: DownloadState,
    events: Seq<(usize, Outcome)>,
)
    requires
        state.wf(),
    ensures
        forall|i: int|
            0 <= i < events.len() ==> (#[trigger] spec_run(state, events).1[i]
                matches DownloadAction::Fetch { part: asked, .. } ==> {
                &&& asked < state.part_total()
                &&& state.start_offset <= spec_part_start(
                    state.start_offset as int,
                    state.part_size as int,
                    asked as int,
                )
                &&& spec_part_end(
                    state.start_offset as int,
                    state.part_size as int,
                    state.total_size as int,
                    asked as int,
                ) < state.total_size
            }),
    decreases events.len(),
{
    if events.len() > 0 {
        lemma_every_request_stays_in_remaining_range(state, events.drop_last());
        lemma_concurrency_is_bounded(state, events.drop_last());
        let before = spec_run(state, events.drop_last());
        lemma_requests_stay_in_remaining_range(before.0, events.last().0, events.last().1);
        assert forall|i: int| 0 <= i < events.len() - 1 implies spec_run(state, events).1[i]
            == before.1[i] by {}
    }
}

/// Where the local copy is complete, the download is finished as it begins:
/// no chunk is in flight, and whatever is reported, no request is made.
pub proof fn lemma_complete_copy_needs_no_request(
    total_size: u64,
    part_size: u64,
    limit: usize,
    policy: RetryPolicy,
    events: Seq<(usize, Outcome)>,
)
    requires
        part_size > 0,
        limit > 0,
    ensures
        DownloadState::spec_initial(total_size, total_size, part_size, limit, policy).finished(),
        DownloadState::spec_initial(total_size, total_size, part_size, limit, policy).part_total()
            == 0,
        forall|i: int|
            0 <= i < events.len() ==> #[trigger] spec_run(
                DownloadState::spec_initial(total_size, total_size, part_size, limit, policy),
                events,
            ).1[i] == DownloadAction::Ignore,
        spec_run(
            DownloadState::spec_initial(total_size, total_size, part_size, limit, policy),
            events,
        ).0 == DownloadState::spec_initial(total_size, total_size, part_size, limit, policy),
    decreases events.len(),
{
    let initial = DownloadState::spec_initial(total_size, total_size, part_size, limit, policy);
    if events.len() > 0 {
        lemma_complete_copy_needs_no_request(
            total_size,
            part_size,
            limit,
            policy,
            events.drop_last(),
        );
        lemma_initial_state_is_wf(total_size, total_size, part_size, limit, policy);
        lemma_concurrency_is_bounded(initial, events.drop_last());
        assert(!initial.holds(events.last().0));
    }
}

/// While retries remain, failed attempts at a chunk that are retried leave the
/// chunk in its slot and every other transfer as it was, each answered by
/// reading the chunk again after the fixed delay.
pub proof fn lemma_retries_keep_chunk(state: DownloadState, part: usize, outcomes: Seq<Outcome>)
    requires
        state.wf(),
        state.holds(part),
        state.in_flight[state.slot_index(part)].retries == 0,
        outcomes.len() <= state.policy.max_retries,
        forall|i: int| 0 <= i < outcomes.len() ==> (#[trigger] outcomes[i]).spec_is_transient(),
    ensures
        spec_run(state, spec_chunk_results(part, outcomes)).0 == (DownloadState {
            in_flight: state.in_flight.update(
                state.slot_index(part),
                Slot { part, retries: outcomes.len() as u32 },
            ),
            ..state
        }),
        spec_run(state, spec_chunk_results(part, outcomes)).1.len() == outcomes.len(),
        forall|i: int|
            0 <= i < outcomes.len() ==> #[trigger] spec_run(
                state,
                spec_chunk_results(part, outcomes),
            ).1[i] == (DownloadAction::Fetch { part, delay_secs: state.policy.delay_secs }),
    decreases outcomes.len(),
{
    let i = state.slot_index(part);
    assert(0 <= i < state.in_flight.len() && state.in_flight[i].part == part);
    if outcomes.len() == 0 {
        assert(state.in_flight.update(i, Slot { part, retries: 0 }) =~= state.in_flight);
    } else {
        let retried = outcomes.drop_last();
        lemma_retries_keep_chunk(state, part, retried);
        assert(spec_chunk_results(part, outcomes).drop_last() =~= spec_chunk_results(
            part,
            retried,
        ));
        assert(outcomes.last().spec_is_transient());
        let before = spec_run(state, spec_chunk_results(part, retried)).0;
        lemma_concurrency_is_bounded(state, spec_chunk_results(part, retried));
        lemma_slot_index_is_unique(before, part, i);
        assert(before.in_flight.update(i, Slot { part, retries: outcomes.len() as u32 })
            =~= state.in_flight.update(i, Slot { part, retries: outcomes.len() as u32 }));
    }
}

/// A chunk in flight stands in one slot only.
pub proof fn lemma_slot_index_is_unique(state: DownloadState, part: usize, i: int)
    requires
        state.wf(),
        0 <= i < state.in_flight.len(),
        state.in_flight[i].part == part,
    ensures
        state.holds(part),
        state.slot_index(part) == i,
{
    let j = state.slot_index(part);
    assert(0 <= j < state.in_flight.len() && state.in_flight[j].part == part);
    if i < j {
        assert(state.in_flight[i].part != state.in_flight[j].part);
    }
    if j < i {
        assert(state.in_flight[j].part != state.in_flight[i].part);
    }
}

/// A chunk whose every attempt fails in a way that is retried is read again
/// after each of the first `max_retries` failures, and the failure after that
/// takes it out of its slot as failed for good: with the default policy the
/// chunk is attempted four times. The chunks in the other slots are not
/// touched by any of it.
pub proof fn lemma_chunk_is_given_up_after_retries(
    state: DownloadState,
    part: usize,
    outcomes: Seq<Outcome>,
)
    requires
        state.wf(),
        state.holds(part),
        state.in_flight[state.slot_index(part)].retries == 0,
        outcomes.len() == state.policy.max_retries + 1,
        forall|i: int| 0 <= i < outcomes.len() ==> (#[trigger] outcomes[i]).spec_is_transient(),
    ensures
        forall|i: int|
            0 <= i < state.policy.max_retries ==> #[trigger] spec_run(
                state,
                spec_chunk_results(part, outcomes),
            ).1[i] == (DownloadAction::Fetch { part, delay_secs: state.policy.delay_secs }),
        !spec_run(state, spec_chunk_results(part, outcomes)).0.holds(part),
        spec_run(state, spec_chunk_results(part, outcomes)).0.failures == state.failures.push(
            ChunkFailure {
                part,
                attempts: (state.policy.max_retries + 1) as u64,
                cause: outcomes.last(),
            },
        ),
        spec_run(state, spec_chunk_results(part, outcomes)).0.succeeded == state.succeeded,
        forall|other: usize|
            other != part && state.holds(other) ==> #[trigger] spec_run(
                state,
                spec_chunk_results(part, outcomes),
            ).0.holds(other),
{
    let i = state.slot_index(part);
    assert(0 <= i < state.in_flight.len() && state.in_flight[i].part == part);
    let retried = outcomes.drop_last();
    lemma_retries_keep_chunk(state, part, retried);
    assert(spec_chunk_results(part, outcomes).drop_last() =~= spec_chunk_results(part, retried));
    assert(outcomes.last().spec_is_transient());
    let before = spec_run(state, spec_chunk_results(part, retried)).0;
    lemma_concurrency_is_bounded(state, spec_chunk_results(part, retried));
    lemma_slot_index_is_unique(before, part, i);
    let run = spec_run(state, spec_chunk_results(part, outcomes));
    lemma_step_keeps_wf(before, part, outcomes.last());
    assert forall|k: int| 0 <= k < state.policy.max_retries implies #[trigger] run.1[k] == (
    DownloadAction::Fetch { part, delay_secs: state.policy.delay_secs }) by {
        assert(run.1[k] == spec_run(state, spec_chunk_results(part, retried)).1[k]);
    }
    let removed = before.in_flight.remove(i);
    assert(!run.0.holds(part)) by {
        if run.0.holds(part) {
            let j = run.0.slot_index(part);
            assert(run.0.in_flight[j].part == part);
            if j < removed.len() {
                assert(removed[j] == if j < i {
                    before.in_flight[j]
                } else {
                    before.in_flight[j + 1]
                });
            } else {
                assert(run.0.in_flight[j].part == before.next);
            }
        }
    }
    assert forall|other: usize| other != part && state.holds(other) implies #[trigger] run.0.holds(
        other,
    ) by {
        let j = state.slot_index(other);
        assert(0 <= j < state.in_flight.len() && state.in_flight[j].part == other);
        assert(before.in_flight[j].part == other);
        let moved = if j < i {
            j
        } else {
            j - 1
        };
        assert(removed[moved] == before.in_flight[j]);
        assert(run.0.in_flight[moved].part == other);
    }
}

/// A download is all or nothing. It is reported as complete only when every
/// chunk of the plan is written, and as failed only when every chunk is
/// through and at least one of them has failed for good. Until then the
/// engine asks for the next read or for patience.
pub proof fn lemma_download_is_all_or_nothing(state: DownloadState, part: usize, outcome: Outcome)
    requires
        state.wf(),
    ensures
        state.spec_step(part, outcome).1 is Complete ==> {
            &&& state.spec_step(part, outcome).0.finished()
            &&& state.spec_step(part, outcome).0.succeeded == state.part_total()
            &&& state.spec_step(part, outcome).0.failures.len() == 0
        },
        state.spec_step(part, outcome).1 is Fail ==> {
            &&& state.spec_step(part, outcome).0.finished()
            &&& state.spec_step(part, outcome).0.failures.len() > 0
        },
        state.holds(part) && state.spec_step(part, outcome).0.finished() ==> state.spec_step(
            part,
            outcome,
        ).1 is Complete || state.spec_step(part, outcome).1 is Fail,
{
    lemma_step_keeps_wf(state, part, outcome);
    if state.holds(part) {
        let i = state.slot_index(part);
        assert(0 <= i < state.in_flight.len() && state.in_flight[i].part == part);
    }
}

/// Whether the action asks for chunk `part` to be read.
pub open spec fn spec_asks_for(action: DownloadAction, part: usize) -> bool {
    action matches DownloadAction::Fetch { part: asked, .. } && asked == part
}

/// Number of actions among `actions` that ask for chunk `part`.
pub open spec fn spec_fetches(actions: Seq<DownloadAction>, part: usize) -> int
    decreases actions.len(),
{
    if actions.len() == 0 {
        0
    } else {
        spec_fetches(actions.drop_last(), part) + if spec_asks_for(actions.last(), part) {
            1int
        } else {
            0int
        }
    }
}

/// Number of requests made for chunk `part` in a download that began with
/// the first `started` chunks in flight and has handed out `actions` since.
pub open spec fn spec_requests(started: int, actions: Seq<DownloadAction>, part: usize) -> int {
    spec_fetches(actions, part) + if part < started {
        1int
    } else {
        0int
    }
}

/// Whether the state accounts for every request made for chunk `part`. A
/// chunk that was not handed out was never asked for. A chunk in flight was
/// asked for once and once more for each retry. A chunk that failed for good
/// was asked for as often as its record says, which is the whole budget
/// where its last failure was one that is retried. No chunk was asked for
/// more often than the budget allows.
pub open spec fn spec_accounted(
    started: int,
    state: DownloadState,
    actions: Seq<DownloadAction>,
    part: usize,
) -> bool {
    let requests = spec_requests(started, actions, part);
    &&& 0 <= requests <= state.policy.max_retries + 1
    &&& part >= state.next ==> requests == 0
    &&& forall|i: int|
        0 <= i < state.in_flight.len() && (#[trigger] state.in_flight[i]).part == part
            ==> requests == state.in_flight[i].retries + 1
    &&& forall|i: int|
        0 <= i < state.failures.len() && (#[trigger] state.failures[i]).part == part ==> {
            &&& requests == state.failures[i].attempts
            &&& !state.holds(part)
            &&& state.failures[i].cause.spec_is_transient() ==> state.failures[i].attempts
                == state.policy.max_retries + 1
        }
}

/// One event keeps the account of every chunk.
pub proof fn lemma_step_keeps_account(
    started: int,
    state: DownloadState,
    actions: Seq<DownloadAction>,
    event_part: usize,
    outcome: Outcome,
    part: usize,
)
    requires
        state.wf(),
        0 <= started <= state.next,
        spec_accounted(started, state, actions, part),
    ensures
        spec_accounted(
            started,
            state.spec_step(event_part, outcome).0,
            actions.push(state.spec_step(event_part, outcome).1),
            part,
        ),
        state.next <= state.spec_step(event_part, outcome).0.next,
{
    let after = state.spec_step(event_part, outcome);
    let then = actions.push(after.1);
    assert(then.drop_last() =~= actions);
    assert(then.last() == after.1);
    lemma_step_keeps_wf(state, event_part, outcome);
    lemma_requests_stay_in_remaining_range(state, event_part, outcome);
    if state.holds(event_part) {
        let i = state.slot_index(event_part);
        assert(0 <= i < state.in_flight.len() && state.in_flight[i].part == event_part);
        let retries = state.in_flight[i].retries;
        let removed = state.in_flight.remove(i);
        assert forall|j: int| 0 <= j < removed.len() implies #[trigger] removed[j] == (if j < i {
            state.in_flight[j]
        } else {
            state.in_flight[j + 1]
        }) by {}
        if state.holds(part) {
            let at = state.slot_index(part);
            assert(0 <= at < state.in_flight.len() && state.in_flight[at].part == part);
            assert forall|k: int| 0 <= k < state.failures.len() implies (
            #[trigger] state.failures[k]).part != part by {}
        }
        assert forall|j: int|
            0 <= j < after.0.in_flight.len() && (#[trigger] after.0.in_flight[j]).part
                == part implies spec_requests(started, then, part) == after.0.in_flight[j].retries
            + 1 by {
            if after.0.in_flight.len() == state.in_flight.len() && after.0.next == state.next {
                // a retry: the slots stand where they stood
                if j != i {
                    assert(after.0.in_flight[j] == state.in_flight[j]);
                }
            } else if j < removed.len() {
                let from = if j < i {
                    j
                } else {
                    j + 1
                };
                assert(after.0.in_flight[j] == state.in_flight[from]);
            }
        }
        assert forall|k: int|
            0 <= k < after.0.failures.len() && (#[trigger] after.0.failures[k]).part
                == part implies {
            &&& spec_requests(started, then, part) == after.0.failures[k].attempts
            &&& !after.0.holds(part)
            &&& after.0.failures[k].cause.spec_is_transient() ==> after.0.failures[k].attempts
                == state.policy.max_retries + 1
        } by {
            if k < state.failures.len() {
                assert(after.0.failures[k] == state.failures[k]);
                assert(state.failures[k].part == part);
                assert(!state.holds(part));
            }
            if after.0.holds(part) {
                let j = after.0.slot_index(part);
                assert(after.0.in_flight[j].part == part);
                if after.0.in_flight.len() == state.in_flight.len() && after.0.next
                    == state.next {
                    if j != i {
                        assert(after.0.in_flight[j] == state.in_flight[j]);
                    }
                } else if j < removed.len() {
                    let from = if j < i {
                        j
                    } else {
                        j + 1
                    };
                    assert(after.0.in_flight[j] == state.in_flight[from]);
                }
            }
        }
    }
}

/// The account of every chunk is right along every run of a download from
/// its beginning.
pub proof fn lemma_run_keeps_account(
    total_size: u64,
    start_offset: u64,
    part_size: u64,
    limit: usize,
    policy: RetryPolicy,
    events: Seq<(usize, Outcome)>,
    part: usize,
)
    requires
        part_size > 0,
        limit > 0,
        start_offset <= total_size,
        crate::plan::spec_part_count(total_size - start_offset, part_size as int) <= u32::MAX,
    ensures
        ({
            let initial = DownloadState::spec_initial(
                total_size,
                start_offset,
                part_size,
                limit,
                policy,
            );
            let run = spec_run(initial, events);
            spec_accounted(initial.next as int, run.0, run.1, part) && initial.next <= run.0.next
        }),
    decreases events.len(),
{
    let initial = DownloadState::spec_initial(total_size, start_offset, part_size, limit, policy);
    lemma_initial_state_is_wf(total_size, start_offset, part_size, limit, policy);
    if events.len() == 0 {
        assert(!initial.holds(part) || part < initial.next);
    } else {
        lemma_run_keeps_account(
            total_size,
            start_offset,
            part_size,
            limit,
            policy,
            events.drop_last(),
            part,
        );
        let before = spec_run(initial, events.drop_last());
        lemma_concurrency_is_bounded(initial, events.drop_last());
        lemma_step_keeps_account(
            initial.next as int,
            before.0,
            before.1,
            events.last().0,
            events.last().1,
            part,
        );
    }
}

/// Whatever else goes on, along every run of a download from its beginning
/// and in whatever order the transfers end, no chunk is asked for more often
/// than once and then `max_retries` times more. A chunk that has failed for
/// good on a failure that is retried was asked for exactly that often: with
/// the default policy, four times.
pub proof fn lemma_no_chunk_exceeds_the_retry_budget(
    total_size: u64,
    start_offset: u64,
    part_size: u64,
    limit: usize,
    policy: RetryPolicy,
    events: Seq<(usize, Outcome)>,
    part: usize,
)
    requires
        part_size > 0,
        limit > 0,
        start_offset <= total_size,
        crate::plan::spec_part_count(total_size - start_offset, part_size as int) <= u32::MAX,
    ensures
        ({
            let initial = DownloadState::spec_initial(
                total_size,
                start_offset,
                part_size,
                limit,
                policy,
            );
            let run = spec_run(initial, events);
            let requests = spec_requests(initial.next as int, run.1, part);
            &&& requests <= policy.max_retries + 1
            &&& forall|k: int|
                0 <= k < run.0.failures.len() && (#[trigger] run.0.failures[k]).part == part
                    && run.0.failures[k].cause.spec_is_transient() ==> requests
                    == policy.max_retries + 1 && run.0.failures[k].attempts == requests
        }),
{
    lemma_run_keeps_account(total_size, start_offset, part_size, limit, policy, events, part);
    let initial = DownloadState::spec_initial(total_size, start_offset, part_size, limit, policy);
    lemma_initial_state_is_wf(total_size, start_offset, part_size, limit, policy);
    lemma_concurrency_is_bounded(initial, events);
}

} // verus!
