//! The download engine: the chunks of the remaining range, a fixed number of
//! them in flight at a time.
//!
//! The engine decides and the caller acts. The caller starts the transfers
//! that the engine hands out, each a ranged read of one chunk that is written
//! at the chunk's own offset, and reports the end of each as it comes.

use vstd::prelude::*;
use crate::error::TransferError;
use crate::plan::{spec_min, spec_part_count, PartDescriptor, TransferPlan};
use crate::retry::{Outcome, RetryPolicy, Verdict};

verus! {

/// Default number of chunk transfers in flight at a time.
pub const MAX_CONCURRENCY: usize = 3;

/// What is on disk of the file when a download begins.
#[derive(Clone, Copy, Debug, PartialEq, Eq, Structural)]
pub struct ResumeState {
    /// Number of bytes of the file that are taken to be there already. The
    /// download goes on at this offset; the bytes below it are not read
    /// again, and nothing checks that they are the right bytes.
    pub bytes_already_present: u64,
}

impl ResumeState {
    /// The resume point for a file of `total_size` bytes of which a local
    /// copy of `existing_len` bytes exists, or none: the length of the copy,
    /// but no more than the file has.
    pub fn inspect(existing_len: Option<u64>, total_size: u64) -> (resume: ResumeState)
        ensures
            resume.bytes_already_present <= total_size,
            existing_len is None ==> resume.bytes_already_present == 0,
            existing_len matches Some(n) ==> resume.bytes_already_present == spec_min(
                n as int,
                total_size as int,
            ),
    {
        match existing_len {
            None => ResumeState { bytes_already_present: 0 },
            Some(n) => ResumeState {
                bytes_already_present: if n < total_size {
                    n
                } else {
                    total_size
                },
            },
        }
    }

    /// Whether nothing is left to download of a file of `total_size` bytes.
    pub fn is_complete(&self, total_size: u64) -> (done: bool)
        ensures
            done == (self.bytes_already_present >= total_size),
    {
        self.bytes_already_present >= total_size
    }
}

/// A chunk transfer in flight.
#[derive(Clone, Copy, Debug, PartialEq, Eq, Structural)]
pub struct Slot {
    /// The chunk, counted from 0.
    pub part: usize,
    /// Number of further attempts spent on it.
    pub retries: u32,
}

/// A chunk that failed for good.
#[derive(Clone, Copy, Debug, PartialEq, Eq, Structural)]
pub struct ChunkFailure {
    /// The chunk, counted from 0.
    pub part: usize,
    /// Number of attempts made.
    pub attempts: u64,
    /// What the last attempt came to.
    pub cause: Outcome,
}

/// What the engine asks the caller to do next.
#[derive(Clone, Debug, PartialEq, Eq)]
pub enum DownloadAction {
    /// Wait `delay_secs` seconds, then read the bytes of chunk `part`
    /// (counted from 0) and write them at the chunk's offset.
    Fetch { part: usize, delay_secs: u64 },
    /// Start nothing: wait for the transfers in flight.
    Wait,
    /// Report success: every chunk is written.
    Complete,
    /// Report the failure: every chunk is through, and not all were written.
    Fail(TransferError),
    /// Nothing: the chunk that the event speaks of is not in flight.
    Ignore,
}

/// The state of a download as contracts speak of it.
pub struct DownloadState {
    /// Length of the whole file.
    pub total_size: u64,
    /// Length of every chunk but possibly the last.
    pub part_size: u64,
    /// First byte that is downloaded: the resume offset.
    pub start_offset: u64,
    /// Number of chunk transfers that may be in flight at a time.
    pub limit: usize,
    /// How failed attempts are retried.
    pub policy: RetryPolicy,
    /// Number of chunks handed out so far: the chunks before this one.
    pub next: usize,
    /// The transfers in flight.
    pub in_flight: Seq<Slot>,
    /// Number of chunks written.
    pub succeeded: usize,
    /// The chunks that failed for good, in the order in which they failed.
    pub failures: Seq<ChunkFailure>,
}

impl DownloadState {
    /// Number of chunks that the remaining range is cut into.
    pub open spec fn part_total(self) -> int {
        spec_part_count(self.total_size - self.start_offset, self.part_size as int)
    }

    /// Whether chunk `part` is in flight.
    pub open spec fn holds(self, part: usize) -> bool {
        exists|i: int| 0 <= i < self.in_flight.len() && (#[trigger] self.in_flight[i]).part == part
    }

    /// Where chunk `part` stands among the transfers in flight.
    pub open spec fn slot_index(self, part: usize) -> int {
        choose|i: int| 0 <= i < self.in_flight.len() && (#[trigger] self.in_flight[i]).part == part
    }

    /// Whether every chunk is through.
    pub open spec fn finished(self) -> bool {
        self.next == self.part_total() && self.in_flight.len() == 0
    }

    /// What holds of every state that an engine is ever in. No more transfers
    /// are in flight than the limit allows. No slot stays empty while a chunk
    /// waits. The chunks in flight differ from one another and were all handed
    /// out. Every chunk handed out is in flight, written or failed.
    pub open spec fn wf(self) -> bool {
        &&& self.part_size > 0
        &&& self.start_offset <= self.total_size
        &&& self.part_total() <= u32::MAX
        &&& self.limit >= 1
        &&& self.next <= self.part_total()
        &&& self.in_flight.len() <= self.limit
        &&& self.in_flight.len() < self.limit ==> self.next == self.part_total()
        &&& forall|i: int|
            0 <= i < self.in_flight.len() ==> (#[trigger] self.in_flight[i]).part < self.next
                && self.in_flight[i].retries <= self.policy.max_retries
        &&& forall|i: int, j: int|
            0 <= i < j < self.in_flight.len() ==> (#[trigger] self.in_flight[i]).part != (
            #[trigger] self.in_flight[j]).part
        &&& self.succeeded + self.failures.len() + self.in_flight.len() == self.next
        &&& forall|i: int|
            0 <= i < self.failures.len() ==> (#[trigger] self.failures[i]).part < self.next
    }

    /// The state in which a download begins: the first chunks are in flight,
    /// as many as the limit allows and the range has.
    pub open spec fn spec_initial(
        total_size: u64,
        start_offset: u64,
        part_size: u64,
        limit: usize,
        policy: RetryPolicy,
    ) -> DownloadState {
        let total = spec_part_count(total_size - start_offset, part_size as int);
        let first = spec_min(limit as int, total);
        DownloadState {
            total_size,
            part_size,
            start_offset,
            limit,
            policy,
            next: first as usize,
            in_flight: Seq::new(first as nat, |k: int| Slot { part: k as usize, retries: 0 }),
            succeeded: 0,
            failures: Seq::empty(),
        }
    }

    /// What follows when a slot has become free: the next chunk where one
    /// waits, else nothing while transfers are in flight, else the end of the
    /// download, which is a success only where no chunk has failed.
    pub open spec fn spec_refill(self) -> (DownloadState, DownloadAction) {
        if self.next < self.part_total() {
            (
                DownloadState {
                    in_flight: self.in_flight.push(Slot { part: self.next, retries: 0 }),
                    next: (self.next + 1) as usize,
                    ..self
                },
                DownloadAction::Fetch { part: self.next, delay_secs: 0 },
            )
        } else if self.in_flight.len() > 0 {
            (self, DownloadAction::Wait)
        } else if self.failures.len() == 0 {
            (self, DownloadAction::Complete)
        } else {
            (
                self,
                DownloadAction::Fail(
                    TransferError::ChunksFailed {
                        failed: self.failures.len() as u32,
                        part: (self.failures[0].part + 1) as u32,
                        attempts: self.failures[0].attempts,
                        cause: self.failures[0].cause,
                    },
                ),
            )
        }
    }

    /// The state that follows `self` when an attempt at chunk `part` has come
    /// to `outcome`, and the action that the engine hands out. After a failure
    /// that the policy lets retry, the same chunk is read again and keeps its
    /// slot. After a success or a failure for good the chunk leaves its slot;
    /// the other transfers go on either way.
    pub open spec fn spec_step(self, part: usize, outcome: Outcome) -> (
        DownloadState,
        DownloadAction,
    ) {
        if !self.holds(part) {
            (self, DownloadAction::Ignore)
        } else {
            let i = self.slot_index(part);
            let retries = self.in_flight[i].retries;
            match self.policy.spec_decide(outcome, retries as int) {
                Verdict::RetryAfter(delay_secs) => (
                    DownloadState {
                        in_flight: self.in_flight.update(
                            i,
                            Slot { part, retries: (retries + 1) as u32 },
                        ),
                        ..self
                    },
                    DownloadAction::Fetch { part, delay_secs },
                ),
                Verdict::Accept => DownloadState {
                    in_flight: self.in_flight.remove(i),
                    succeeded: (self.succeeded + 1) as usize,
                    ..self
                }.spec_refill(),
                Verdict::GiveUp => DownloadState {
                    in_flight: self.in_flight.remove(i),
                    failures: self.failures.push(
                        ChunkFailure { part, attempts: (retries + 1) as u64, cause: outcome },
                    ),
                    ..self
                }.spec_refill(),
            }
        }
    }
}

/// Drives one download: every chunk of the remaining range is handed out
/// once, at most `limit` of them are in flight at a time, and the download
/// ends when every chunk is through.
pub struct DownloadEngine {
    plan: TransferPlan,
    limit: usize,
    policy: RetryPolicy,
    next: usize,
    in_flight: Vec<Slot>,
    succeeded: usize,
    failures: Vec<ChunkFailure>,
}

impl View for DownloadEngine {
    type V = DownloadState;

    closed spec fn view(&self) -> DownloadState {
        DownloadState {
            total_size: self.plan.total_size,
            part_size: self.plan.part_size,
            start_offset: self.plan.start_offset,
            limit: self.limit,
            policy: self.policy,
            next: self.next,
            in_flight: self.in_flight@,
            succeeded: self.succeeded,
            failures: self.failures@,
        }
    }
}

impl DownloadEngine {
    /// The plan inside the engine cuts the remaining range, and the state is
    /// one that a download can be in.
    pub closed spec fn wf(&self) -> bool {
        &&& self.plan.wf()
        &&& self.targets_absent()
        &&& self@.wf()
    }

    /// No chunk of a download has an upload target.
    spec fn targets_absent(&self) -> bool {
        forall|k: int|
            0 <= k < self.plan.parts@.len() ==> (#[trigger] self.plan.parts@[k]).upload_target
                is None
    }

    /// Whether a download with these settings can be planned: the part size
    /// and the limit are not zero, and the chunks can be numbered in 32 bits.
    pub open spec fn spec_plannable(
        total_size: u64,
        resume: ResumeState,
        part_size: u64,
        limit: usize,
    ) -> bool {
        &&& part_size > 0
        &&& limit > 0
        &&& spec_part_count(
            total_size - spec_min(resume.bytes_already_present as int, total_size as int),
            part_size as int,
        ) <= u32::MAX
    }

    /// Begins the download of a file of `total_size` bytes in chunks of
    /// `part_size` bytes, at most `limit` of them in flight at a time. Gives
    /// the engine and the chunks to start with, in ascending order. Where the
    /// local copy is complete, there is no chunk to start with and the
    /// download is finished. A download with a part size or a limit of zero,
    /// or with more chunks than 32 bits can number, cannot be planned.
    pub fn start(
        total_size: u64,
        resume: ResumeState,
        part_size: u64,
        limit: usize,
        policy: RetryPolicy,
    ) -> (r: Result<(DownloadEngine, Vec<usize>), TransferError>)
        ensures
            r is Ok <==> Self::spec_plannable(total_size, resume, part_size, limit),
            r matches Err(error) ==> error == TransferError::Unplannable,
            r matches Ok((engine, first)) ==> {
                &&& engine.wf()
                &&& engine@ == DownloadState::spec_initial(
                    total_size,
                    spec_min(resume.bytes_already_present as int, total_size as int) as u64,
                    part_size,
                    limit,
                    policy,
                )
                &&& first@.len() == engine@.in_flight.len()
                &&& forall|k: int| 0 <= k < first@.len() ==> first@[k] == k
            },
    {
        if limit == 0 {
            return Err(TransferError::Unplannable);
        }
        match TransferPlan::new(total_size, resume.bytes_already_present, part_size) {
            None => Err(TransferError::Unplannable),
            Some(plan) => {
                let total: usize = plan.parts.len();
                let mut in_flight: Vec<Slot> = Vec::new();
                let mut first: Vec<usize> = Vec::new();
                let mut k: usize = 0;
                while k < limit && k < total
                    invariant
                        k <= limit,
                        k <= total,
                        in_flight@.len() == k,
                        first@.len() == k,
                        forall|j: int|
                            0 <= j < k ==> in_flight@[j] == (Slot { part: j as usize, retries: 0 }),
                        forall|j: int| 0 <= j < k ==> first@[j] == j,
                    decreases total - k,
                {
                    in_flight.push(Slot { part: k, retries: 0 });
                    first.push(k);
                    k = k + 1;
                }
                let engine = DownloadEngine {
                    plan,
                    limit,
                    policy,
                    next: k,
                    in_flight,
                    succeeded: 0,
                    failures: Vec::new(),
                };
                proof {
                    let initial = DownloadState::spec_initial(
                        total_size,
                        engine.plan.start_offset,
                        part_size,
                        limit,
                        policy,
                    );
                    assert(engine@.in_flight =~= initial.in_flight);
                    assert(engine@.failures =~= initial.failures);
                }
                Ok((engine, first))
            },
        }
    }

    /// An engine is always in a state that a download can be in: among the
    /// rest, no more transfers are in flight than the limit allows.
    pub proof fn lemma_state_is_wf(&self)
        requires
            self.wf(),
        ensures
            self@.wf(),
            self@.in_flight.len() <= self@.limit,
    {
    }

    /// The plan that the download follows: the chunks of the remaining
    /// range, which tile it.
    pub fn plan(&self) -> (plan: &TransferPlan)
        requires
            self.wf(),
        ensures
            plan.wf(),
            plan.total_size == self@.total_size,
            plan.part_size == self@.part_size,
            plan.start_offset == self@.start_offset,
            plan.parts@.len() == self@.part_total(),
    {
        &self.plan
    }

    /// Number of chunks that the remaining range is cut into.
    pub fn part_total(&self) -> (n: usize)
        requires
            self.wf(),
        ensures
            n == self@.part_total(),
    {
        self.plan.parts.len()
    }

    /// Chunk `k` (counted from 0): its byte range as the part size gives it,
    /// counted from the resume offset, the last chunk cut off at the end of
    /// the file.
    pub fn part(&self, k: usize) -> (part: &PartDescriptor)
        requires
            self.wf(),
            k < self@.part_total(),
        ensures
            part.is_part(
                self@.start_offset as int,
                self@.part_size as int,
                self@.total_size as int,
                k as int,
            ),
            part.upload_target is None,
    {
        &self.plan.parts[k]
    }

    /// Number of chunk transfers in flight: never more than the limit.
    pub fn in_flight(&self) -> (n: usize)
        requires
            self.wf(),
        ensures
            n == self@.in_flight.len(),
            n <= self@.limit,
    {
        self.in_flight.len()
    }

    /// Whether every chunk is through.
    pub fn is_finished(&self) -> (done: bool)
        requires
            self.wf(),
        ensures
            done == self@.finished(),
    {
        self.next == self.plan.parts.len() && self.in_flight.len() == 0
    }

    /// The chunks that failed for good, in the order in which they failed.
    pub fn failures(&self) -> (failures: &Vec<ChunkFailure>)
        ensures
            failures@ == self@.failures,
    {
        &self.failures
    }

    /// Where chunk `part` stands among the transfers in flight.
    fn find_slot(&self, part: usize) -> (found: Option<usize>)
        requires
            self.wf(),
        ensures
            found is Some <==> self@.holds(part),
            found matches Some(i) ==> i == self@.slot_index(part) && i < self.in_flight@.len()
                && self.in_flight@[i as int].part == part,
    {
        let mut i: usize = 0;
        while i < self.in_flight.len()
            invariant
                i <= self.in_flight@.len(),
                forall|j: int| 0 <= j < i ==> (#[trigger] self.in_flight@[j]).part != part,
                self.wf(),
            decreases self.in_flight@.len() - i,
        {
            if self.in_flight[i].part == part {
                assert(self@.holds(part));
                return Some(i);
            }
            i = i + 1;
        }
        None
    }

    /// Fills the slot that has become free.
    fn refill(&mut self) -> (action: DownloadAction)
        requires
            old(self).plan.wf(),
            old(self).targets_absent(),
            ({
                let s = old(self)@;
                &&& s.limit >= 1
                &&& s.next <= s.part_total()
                &&& s.in_flight.len() < s.limit
                &&& s.failures.len() <= s.next
                &&& forall|i: int|
                    0 <= i < s.in_flight.len() ==> (#[trigger] s.in_flight[i]).part < s.next
                        && s.in_flight[i].retries <= s.policy.max_retries
                &&& forall|i: int, j: int|
                    0 <= i < j < s.in_flight.len() ==> (#[trigger] s.in_flight[i]).part != (
                    #[trigger] s.in_flight[j]).part
                &&& s.succeeded + s.failures.len() + s.in_flight.len() == s.next
                &&& s.in_flight.len() + 1 < s.limit ==> s.next == s.part_total()
                &&& forall|i: int|
                    0 <= i < s.failures.len() ==> (#[trigger] s.failures[i]).part < s.next
            }),
        ensures
            final(self).wf(),
            (final(self)@, action) == old(self)@.spec_refill(),
    {
        if self.next < self.plan.parts.len() {
            let part = self.next;
            self.in_flight.push(Slot { part, retries: 0 });
            self.next = part + 1;
            DownloadAction::Fetch { part, delay_secs: 0 }
        } else if self.in_flight.len() > 0 {
            DownloadAction::Wait
        } else if self.failures.len() == 0 {
            DownloadAction::Complete
        } else {
            let first = self.failures[0];
            DownloadAction::Fail(
                TransferError::ChunksFailed {
                    failed: self.failures.len() as u32,
                    part: (first.part + 1) as u32,
                    attempts: first.attempts,
                    cause: first.cause,
                },
            )
        }
    }

    /// Takes the end of an attempt at chunk `part` and says what to do next.
    pub fn step(&mut self, part: usize, outcome: Outcome) -> (action: DownloadAction)
        requires
            old(self).wf(),
        ensures
            final(self).wf(),
            (final(self)@, action) == old(self)@.spec_step(part, outcome),
    {
        match self.find_slot(part) {
            None => DownloadAction::Ignore,
            Some(i) => {
                let retries = self.in_flight[i].retries;
                match self.policy.decide(outcome, retries) {
                    Verdict::RetryAfter(delay_secs) => {
                        self.in_flight[i] = Slot { part, retries: retries + 1 };
                        DownloadAction::Fetch { part, delay_secs }
                    },
                    Verdict::Accept => {
                        self.in_flight.remove(i);
                        self.succeeded = self.succeeded + 1;
                        self.refill()
                    },
                    Verdict::GiveUp => {
                        self.in_flight.remove(i);
                        self.failures.push(
                            ChunkFailure { part, attempts: retries as u64 + 1, cause: outcome },
                        );
                        self.refill()
                    },
                }
            },
        }
    }
}

} // verus!
