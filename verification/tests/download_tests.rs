use aliyundrive::download::{
    ChunkFailure, DownloadAction, DownloadEngine, ResumeState, MAX_CONCURRENCY,
};
use aliyundrive::error::{ErrorKind, TransferError};
use aliyundrive::retry::{Outcome, RetryPolicy};

const MIB: u64 = 1024 * 1024;

fn start(total: u64, present: Option<u64>, part: u64, limit: usize) -> (DownloadEngine, Vec<usize>) {
    DownloadEngine::start(total, ResumeState::inspect(present, total), part, limit, RetryPolicy::default())
        .unwrap()
}

#[test]
fn default_concurrency_is_three() {
    assert_eq!(MAX_CONCURRENCY, 3);
}

#[test]
fn resume_state_from_local_copy() {
    assert_eq!(ResumeState::inspect(None, 100).bytes_already_present, 0);
    assert_eq!(ResumeState::inspect(Some(0), 100).bytes_already_present, 0);
    assert_eq!(ResumeState::inspect(Some(40), 100).bytes_already_present, 40);
    assert_eq!(ResumeState::inspect(Some(100), 100).bytes_already_present, 100);
    assert_eq!(ResumeState::inspect(Some(140), 100).bytes_already_present, 100);
    assert!(ResumeState::inspect(Some(100), 100).is_complete(100));
    assert!(!ResumeState::inspect(Some(99), 100).is_complete(100));
    assert!(ResumeState::inspect(None, 0).is_complete(0));
}

#[test]
fn twenty_mib_gives_three_chunks() {
    let (e, first) = start(20 * MIB, None, 8 * MIB, 3);
    assert_eq!(first, vec![0, 1, 2]);
    assert_eq!(e.part_total(), 3);
    assert_eq!(e.in_flight(), 3);
    let lens: Vec<u64> = (0..3).map(|k| e.part(k).len()).collect();
    assert_eq!(lens, vec![8 * MIB, 8 * MIB, 4 * MIB]);
    assert_eq!((e.part(1).start, e.part(1).end_inclusive), (8 * MIB, 16 * MIB - 1));
    assert!(!e.is_finished());
}

#[test]
fn the_plan_tiles_the_remaining_range() {
    let (e, _) = start(95, Some(30), 20, 3);
    let plan = e.plan();
    assert_eq!((plan.total_size, plan.part_size, plan.start_offset), (95, 20, 30));
    let ranges: Vec<(u64, u64)> = plan.parts.iter().map(|p| (p.start, p.end_inclusive)).collect();
    assert_eq!(ranges, vec![(30, 49), (50, 69), (70, 89), (90, 94)]);
}

#[test]
fn complete_copy_needs_no_request() {
    let (mut e, first) = start(20 * MIB, Some(20 * MIB), 8 * MIB, 3);
    assert!(first.is_empty());
    assert_eq!(e.part_total(), 0);
    assert!(e.is_finished());
    assert_eq!(e.step(0, Outcome::Success), DownloadAction::Ignore);
}

#[test]
fn resumed_download_asks_for_the_rest_only() {
    let (e, first) = start(20 * MIB, Some(5 * MIB), 8 * MIB, 3);
    assert_eq!(first, vec![0, 1]);
    assert_eq!((e.part(0).start, e.part(0).end_inclusive), (5 * MIB, 13 * MIB - 1));
    assert_eq!((e.part(1).start, e.part(1).end_inclusive), (13 * MIB, 20 * MIB - 1));
}

#[test]
fn no_engine_for_zero_limit_or_part_size() {
    let resume = ResumeState::inspect(None, 10);
    for (total, part_size, limit) in [(10, 0, 3), (10, 5, 0), (u64::MAX, 1, 3)] {
        assert_eq!(
            DownloadEngine::start(total, resume, part_size, limit, RetryPolicy::default())
                .err(),
            Some(TransferError::Unplannable)
        );
    }
}

#[test]
fn never_more_than_three_in_flight() {
    let (mut e, first) = start(100, None, 7, 3);
    let total = e.part_total();
    assert_eq!(total, 15);
    let mut running: Vec<usize> = first.clone();
    let mut started: Vec<usize> = first;
    let mut peak = running.len();
    let mut turn = 0usize;
    loop {
        assert!(running.len() <= 3);
        assert_eq!(e.in_flight(), running.len());
        if running.is_empty() {
            break;
        }
        // finish the transfers in an order that is not the order of their start
        let pick = (turn * 2 + 1) % running.len();
        turn += 1;
        let part = running.remove(pick);
        match e.step(part, Outcome::Success) {
            DownloadAction::Fetch { part: next, delay_secs } => {
                assert_eq!(delay_secs, 0);
                running.push(next);
                started.push(next);
            }
            DownloadAction::Wait => {}
            DownloadAction::Complete => assert!(running.is_empty()),
            other => panic!("unexpected action {:?}", other),
        }
        peak = peak.max(running.len());
    }
    assert_eq!(peak, 3);
    assert_eq!(started, (0..total).collect::<Vec<usize>>());
    assert!(e.is_finished());
    assert!(e.failures().is_empty());
}

#[test]
fn one_throttled_answer_costs_one_more_request() {
    let (mut e, first) = start(20 * MIB, None, 8 * MIB, 3);
    assert_eq!(first, vec![0, 1, 2]);
    let mut requests = [1u32, 1, 1];
    assert_eq!(e.step(0, Outcome::Success), DownloadAction::Wait);
    match e.step(1, Outcome::Throttled) {
        DownloadAction::Fetch { part, delay_secs } => {
            assert_eq!((part, delay_secs), (1, 3));
            requests[part] += 1;
        }
        other => panic!("unexpected action {:?}", other),
    }
    assert_eq!(e.in_flight(), 2);
    assert_eq!(e.step(2, Outcome::Success), DownloadAction::Wait);
    assert_eq!(e.step(1, Outcome::Success), DownloadAction::Complete);
    assert_eq!(requests, [1, 2, 1]);
    assert!(e.is_finished());
}

#[test]
fn a_chunk_that_always_fails_is_attempted_four_times() {
    let (mut e, _) = start(20 * MIB, None, 8 * MIB, 3);
    let mut attempts = 1;
    loop {
        match e.step(1, Outcome::TransportError) {
            DownloadAction::Fetch { part, delay_secs } => {
                assert_eq!((part, delay_secs), (1, 3));
                attempts += 1;
            }
            DownloadAction::Wait => break,
            other => panic!("unexpected action {:?}", other),
        }
    }
    assert_eq!(attempts, 4);
    assert_eq!(
        e.failures().clone(),
        vec![ChunkFailure { part: 1, attempts: 4, cause: Outcome::TransportError }]
    );
    assert_eq!(e.in_flight(), 2);
    assert_eq!(e.step(1, Outcome::Success), DownloadAction::Ignore);
}

#[test]
fn a_failed_chunk_fails_the_download_when_all_are_through() {
    let (mut e, _) = start(20 * MIB, None, 8 * MIB, 3);
    assert_eq!(e.step(2, Outcome::Rejected(500)), DownloadAction::Wait);
    assert_eq!(e.step(0, Outcome::Success), DownloadAction::Wait);
    let action = e.step(1, Outcome::Success);
    let error = TransferError::ChunksFailed {
        failed: 1,
        part: 3,
        attempts: 1,
        cause: Outcome::Rejected(500),
    };
    assert_eq!(action, DownloadAction::Fail(error.clone()));
    assert_eq!(error.kind(), ErrorKind::FatalTransfer);
    assert!(error.is_unit_failure());
    assert!(e.is_finished());
}

#[test]
fn siblings_go_on_after_a_failure() {
    let (mut e, first) = start(50, None, 10, 2);
    assert_eq!(first, vec![0, 1]);
    assert_eq!(e.step(0, Outcome::Aborted), DownloadAction::Fetch { part: 2, delay_secs: 0 });
    assert_eq!(e.step(1, Outcome::Success), DownloadAction::Fetch { part: 3, delay_secs: 0 });
    assert_eq!(e.step(3, Outcome::Rejected(404)), DownloadAction::Fetch { part: 4, delay_secs: 0 });
    assert_eq!(e.step(2, Outcome::Success), DownloadAction::Wait);
    assert_eq!(
        e.step(4, Outcome::Success),
        DownloadAction::Fail(TransferError::ChunksFailed {
            failed: 2,
            part: 1,
            attempts: 1,
            cause: Outcome::Aborted
        })
    );
}

#[test]
fn a_waiting_retry_keeps_its_slot() {
    let (mut e, first) = start(100, None, 10, 3);
    assert_eq!(first, vec![0, 1, 2]);
    assert_eq!(e.step(0, Outcome::Throttled), DownloadAction::Fetch { part: 0, delay_secs: 3 });
    assert_eq!(e.in_flight(), 3);
    assert_eq!(e.step(1, Outcome::Success), DownloadAction::Fetch { part: 3, delay_secs: 0 });
    assert_eq!(e.in_flight(), 3);
}

#[test]
fn events_for_chunks_not_in_flight_are_ignored() {
    let (mut e, _) = start(100, None, 10, 3);
    assert_eq!(e.step(7, Outcome::Success), DownloadAction::Ignore);
    assert_eq!(e.step(99, Outcome::Success), DownloadAction::Ignore);
    assert_eq!(e.in_flight(), 3);
    assert_eq!(e.step(0, Outcome::Success), DownloadAction::Fetch { part: 3, delay_secs: 0 });
    assert_eq!(e.step(0, Outcome::Success), DownloadAction::Ignore);
}

#[test]
fn a_limit_above_the_chunk_count_starts_every_chunk() {
    let (mut e, first) = start(25, None, 10, 8);
    assert_eq!(first, vec![0, 1, 2]);
    assert_eq!(e.step(2, Outcome::Success), DownloadAction::Wait);
    assert_eq!(e.step(0, Outcome::Success), DownloadAction::Wait);
    assert_eq!(e.step(1, Outcome::Success), DownloadAction::Complete);
}

#[test]
fn a_limit_of_one_is_sequential() {
    let (mut e, first) = start(25, None, 10, 1);
    assert_eq!(first, vec![0]);
    assert_eq!(e.step(0, Outcome::Success), DownloadAction::Fetch { part: 1, delay_secs: 0 });
    assert_eq!(e.step(1, Outcome::Success), DownloadAction::Fetch { part: 2, delay_secs: 0 });
    assert_eq!(e.step(2, Outcome::Success), DownloadAction::Complete);
}
