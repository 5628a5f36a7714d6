//! The upload engine: one part after the other, then the finalize call.
//!
//! The engine decides and the caller acts. The caller performs the action that
//! the engine hands out (a request to the server, after the wait that the
//! action names) and reports what came of it as the next event.

use vstd::prelude::*;
use crate::error::TransferError;
use crate::plan::{spec_part_count, PartDescriptor, TransferPlan};
use crate::retry::{Outcome, RetryPolicy, Verdict};

verus! {

/// One upload target as the server's answer gives it.
#[derive(Clone, Debug, PartialEq, Eq)]
pub struct PartTarget {
    /// Where the bytes of the part go.
    pub upload_url: Option<String>,
    /// The number that the server gives the part.
    pub part_number: Option<u64>,
}

/// The server's answer to the request for an upload session.
#[derive(Clone, Debug, PartialEq, Eq)]
pub struct CreateReply {
    /// The error code, where the server refused.
    pub code: Option<String>,
    /// Identifier of the file that is being created.
    pub file_id: String,
    /// Identifier of the upload session.
    pub upload_id: String,
    /// Whether the server has the content already.
    pub rapid_upload: bool,
    /// The upload targets, one for each declared part.
    pub parts: Vec<PartTarget>,
}

/// What the server and the client agreed on for one upload.
#[derive(Clone, Debug, PartialEq, Eq)]
pub struct TransferSession {
    /// Identifier of the file that is being created.
    pub file_id: String,
    /// Identifier of the upload session.
    pub session_id: String,
    /// Whether the upload was complete when the session was made: the server
    /// had the content already and no byte needs to be sent.
    pub rapid: bool,
}

/// Where an upload stands.
#[derive(Clone, Copy, Debug, PartialEq, Eq, Structural)]
pub enum UploadPhase {
    /// The session request is out.
    Negotiating,
    /// Part `part` (counted from 0) is out, on its `retries`-th further attempt.
    Sending { part: usize, retries: u32 },
    /// Every part is sent and the finalize call is out.
    Finalizing,
    /// The file is on the server.
    Done,
    /// The upload has failed.
    Failed,
}

/// What the caller reports to the engine.
#[derive(Clone, Debug, PartialEq, Eq)]
pub enum UploadEvent {
    /// The server answered the session request.
    Session(CreateReply),
    /// The attempt to send the current part ended.
    PartResult(Outcome),
    /// The finalize call ended.
    FinalizeResult(Outcome),
}

/// What the engine asks the caller to do next.
#[derive(Clone, Debug, PartialEq, Eq)]
pub enum UploadAction {
    /// Wait `delay_secs` seconds, then send part `part` (counted from 0) to
    /// its upload target.
    Send { part: usize, delay_secs: u64 },
    /// Ask the server to commit the file.
    Finalize,
    /// Report success: nothing is left to do.
    Succeed,
    /// Report the failure: nothing is left to do.
    Fail(TransferError),
    /// Nothing: the event does not belong to the phase the upload is in.
    Ignore,
}

/// The state of an upload as contracts speak of it.
pub struct UploadState {
    /// Length of the local file.
    pub file_size: u64,
    /// Length of every part but possibly the last.
    pub part_size: u64,
    /// How failed attempts are retried.
    pub policy: RetryPolicy,
    /// Where the upload stands.
    pub phase: UploadPhase,
    /// The session, once the server has answered without an error code.
    pub session: Option<TransferSession>,
    /// The upload target of each part, in the order of the parts.
    pub targets: Seq<Option<String>>,
    /// Number of parts that are on the server for good: the parts before the
    /// one that the upload has reached.
    pub confirmed: usize,
}

impl UploadState {
    /// Number of parts that the file is cut into.
    pub open spec fn part_total(self) -> int {
        spec_part_count(self.file_size as int, self.part_size as int)
    }

    /// Number of bytes that are on the server for good: the bytes of the
    /// confirmed parts.
    pub open spec fn confirmed_bytes(self) -> int {
        crate::plan::spec_min(self.confirmed * self.part_size, self.file_size as int)
    }

    /// What holds of every state that an engine is ever in.
    pub open spec fn wf(self) -> bool {
        &&& self.part_size > 0
        &&& self.part_total() <= u32::MAX
        &&& self.targets.len() == self.part_total()
        &&& self.confirmed <= self.part_total()
        &&& self.phase matches UploadPhase::Sending { part, retries } ==> {
            &&& part < self.part_total()
            &&& part == self.confirmed
            &&& retries <= self.policy.max_retries
            &&& self.targets[part as int] is Some
        }
        &&& (self.phase is Finalizing || (self.phase is Done && !self.session->0.rapid))
            ==> self.confirmed == self.part_total()
        &&& (self.phase is Sending || self.phase is Finalizing) ==> {
            &&& self.session is Some
            &&& !self.session->0.rapid
        }
        &&& self.phase is Done ==> self.session is Some
        &&& self.phase is Negotiating ==> self.session is None && self.confirmed == 0
    }

    /// The state and the action with which the upload turns to part `k`
    /// (counted from 0), the parts before it being on the server: the
    /// finalize call where no part is left, a failure where the part has no
    /// upload target, else the first attempt to send it.
    pub open spec fn spec_enter(self, k: int) -> (UploadState, UploadAction) {
        if k >= self.part_total() {
            (
                UploadState { phase: UploadPhase::Finalizing, confirmed: k as usize, ..self },
                UploadAction::Finalize,
            )
        } else if self.targets[k] is None {
            (
                UploadState { phase: UploadPhase::Failed, confirmed: k as usize, ..self },
                UploadAction::Fail(TransferError::MissingUploadTarget { part: (k + 1) as u32 }),
            )
        } else {
            (
                UploadState {
                    phase: UploadPhase::Sending { part: k as usize, retries: 0 },
                    confirmed: k as usize,
                    ..self
                },
                UploadAction::Send { part: k as usize, delay_secs: 0 },
            )
        }
    }

    /// The answer to the session request. An error code ends the upload as
    /// refused. A rapid upload ends it as done, with nothing sent. Else the
    /// server must have given one target for each declared part, and the
    /// upload turns to the first part.
    pub open spec fn spec_on_session(self, reply: CreateReply) -> (UploadState, UploadAction) {
        match reply.code {
            Some(code) => (
                UploadState { phase: UploadPhase::Failed, ..self },
                UploadAction::Fail(TransferError::SessionRejected { code }),
            ),
            None => {
                let session = TransferSession {
                    file_id: reply.file_id,
                    session_id: reply.upload_id,
                    rapid: reply.rapid_upload,
                };
                if reply.rapid_upload {
                    (
                        UploadState {
                            phase: UploadPhase::Done,
                            session: Some(session),
                            ..self
                        },
                        UploadAction::Succeed,
                    )
                } else if reply.parts@.len() != self.part_total() {
                    (
                        UploadState {
                            phase: UploadPhase::Failed,
                            session: Some(session),
                            ..self
                        },
                        UploadAction::Fail(
                            TransferError::PartCountMismatch {
                                declared: self.part_total() as u64,
                                received: reply.parts@.len() as u64,
                            },
                        ),
                    )
                } else {
                    UploadState {
                        session: Some(session),
                        targets: reply.parts@.map_values(|t: PartTarget| t.upload_url),
                        ..self
                    }.spec_enter(0)
                }
            },
        }
    }

    /// The end of an attempt to send part `part`, `retries` further attempts
    /// having been spent on it. After a success the upload turns to the next
    /// part. After a failure that the policy lets retry, the same part is sent
    /// again, unchanged. Any other failure ends the upload.
    pub open spec fn spec_on_part_result(self, part: usize, retries: u32, outcome: Outcome) -> (
        UploadState,
        UploadAction,
    ) {
        match self.policy.spec_decide(outcome, retries as int) {
            Verdict::Accept => self.spec_enter(part + 1),
            Verdict::RetryAfter(delay_secs) => (
                UploadState {
                    phase: UploadPhase::Sending { part, retries: (retries + 1) as u32 },
                    ..self
                },
                UploadAction::Send { part, delay_secs },
            ),
            Verdict::GiveUp => (
                UploadState { phase: UploadPhase::Failed, ..self },
                UploadAction::Fail(
                    TransferError::PartFailed {
                        part: (part + 1) as u32,
                        attempts: (retries + 1) as u64,
                        cause: outcome,
                    },
                ),
            ),
        }
    }

    /// The end of the finalize call, which is never retried: anything but a
    /// success ends the upload as failed, though every byte was sent.
    pub open spec fn spec_on_finalize_result(self, outcome: Outcome) -> (
        UploadState,
        UploadAction,
    ) {
        if outcome is Success {
            (UploadState { phase: UploadPhase::Done, ..self }, UploadAction::Succeed)
        } else {
            (
                UploadState { phase: UploadPhase::Failed, ..self },
                UploadAction::Fail(TransferError::FinalizeFailed { cause: outcome }),
            )
        }
    }

    /// The state that follows `self` on `event`, and the action that the
    /// engine hands out. An event that does not belong to the phase changes
    /// nothing.
    pub open spec fn spec_step(self, event: UploadEvent) -> (UploadState, UploadAction) {
        match (self.phase, event) {
            (UploadPhase::Negotiating, UploadEvent::Session(reply)) => self.spec_on_session(reply),
            (UploadPhase::Sending { part, retries }, UploadEvent::PartResult(outcome)) => {
                self.spec_on_part_result(part, retries, outcome)
            },
            (UploadPhase::Finalizing, UploadEvent::FinalizeResult(outcome)) => {
                self.spec_on_finalize_result(outcome)
            },
            _ => (self, UploadAction::Ignore),
        }
    }
}

/// A copy of a text that may be absent.
fn clone_text(text: &Option<String>) -> (copy: Option<String>)
    ensures
        copy == *text,
{
    match text {
        Some(t) => Some(t.clone()),
        None => None,
    }
}

/// The same plan with the upload target of each part taken from `targets`.
fn assign_targets(plan: &TransferPlan, targets: &Vec<PartTarget>) -> (assigned: TransferPlan)
    requires
        plan.wf(),
        targets@.len() == plan.parts@.len(),
    ensures
        assigned.wf(),
        assigned.total_size == plan.total_size,
        assigned.part_size == plan.part_size,
        assigned.start_offset == plan.start_offset,
        assigned.parts@.len() == plan.parts@.len(),
        forall|k: int|
            0 <= k < assigned.parts@.len() ==> (#[trigger] assigned.parts@[k]).upload_target
                == targets@[k].upload_url,
{
    let mut parts: Vec<PartDescriptor> = Vec::new();
    let mut k: usize = 0;
    while k < plan.parts.len()
        invariant
            plan.wf(),
            targets@.len() == plan.parts@.len(),
            k <= plan.parts@.len(),
            parts@.len() == k,
            forall|j: int|
                0 <= j < k ==> (#[trigger] parts@[j]).is_part(
                    plan.start_offset as int,
                    plan.part_size as int,
                    plan.total_size as int,
                    j,
                ),
            forall|j: int|
                0 <= j < k ==> (#[trigger] parts@[j]).upload_target == targets@[j].upload_url,
        decreases plan.parts@.len() - k,
    {
        let part = &plan.parts[k];
        assert(part.is_part(
            plan.start_offset as int,
            plan.part_size as int,
            plan.total_size as int,
            k as int,
        ));
        parts.push(
            PartDescriptor {
                index: part.index,
                start: part.start,
                end_inclusive: part.end_inclusive,
                upload_target: clone_text(&targets[k].upload_url),
            },
        );
        k = k + 1;
    }
    TransferPlan {
        total_size: plan.total_size,
        part_size: plan.part_size,
        start_offset: plan.start_offset,
        parts,
    }
}

/// Drives one upload: part after part in ascending order, one at a time, and
/// the finalize call when the last part is through.
pub struct UploadEngine {
    plan: TransferPlan,
    policy: RetryPolicy,
    phase: UploadPhase,
    session: Option<TransferSession>,
    confirmed: usize,
}

impl View for UploadEngine {
    type V = UploadState;

    closed spec fn view(&self) -> UploadState {
        UploadState {
            file_size: self.plan.total_size,
            part_size: self.plan.part_size,
            policy: self.policy,
            phase: self.phase,
            session: self.session,
            targets: self.plan.parts@.map_values(|p: PartDescriptor| p.upload_target),
            confirmed: self.confirmed,
        }
    }
}

impl UploadEngine {
    /// The plan inside the engine cuts the whole file, from its first byte, and
    /// the state is one that an upload can be in.
    pub closed spec fn wf(&self) -> bool {
        &&& self.plan.wf()
        &&& self.plan.start_offset == 0
        &&& self@.wf()
    }

    /// What `enter` needs: a plan for the whole file and an open session.
    spec fn ready(&self) -> bool {
        &&& self.plan.wf()
        &&& self.plan.start_offset == 0
        &&& self.session is Some
        &&& !self.session->0.rapid
    }

    /// An engine for a file of `file_size` bytes that is sent in parts of
    /// `part_size` bytes. The session request is the first thing to make; it
    /// declares `declared_parts()` parts. An upload with a part size of zero,
    /// or with more parts than 32 bits can number, cannot be planned.
    pub fn new(file_size: u64, part_size: u64, policy: RetryPolicy) -> (r: Result<
        UploadEngine,
        TransferError,
    >)
        ensures
            r is Ok <==> part_size > 0 && spec_part_count(file_size as int, part_size as int)
                <= u32::MAX,
            r matches Err(error) ==> error == TransferError::Unplannable,
            r matches Ok(engine) ==> engine.wf() && engine@ == (UploadState {
                file_size,
                part_size,
                policy,
                phase: UploadPhase::Negotiating,
                session: None,
                targets: Seq::new(
                    spec_part_count(file_size as int, part_size as int) as nat,
                    |k: int| None,
                ),
                confirmed: 0,
            }),
    {
        match TransferPlan::new(file_size, 0, part_size) {
            None => Err(TransferError::Unplannable),
            Some(plan) => {
                let engine = UploadEngine {
                    plan,
                    policy,
                    phase: UploadPhase::Negotiating,
                    session: None,
                    confirmed: 0,
                };
                proof {
                    assert(engine@.targets =~= Seq::new(
                        spec_part_count(file_size as int, part_size as int) as nat,
                        |k: int| None,
                    ));
                }
                Ok(engine)
            },
        }
    }

    /// An engine is always in a state that an upload can be in.
    pub proof fn lemma_state_is_wf(&self)
        requires
            self.wf(),
        ensures
            self@.wf(),
    {
    }

    /// The plan that the upload follows: the parts of the whole file, which
    /// tile it, each with its upload target once the session is made.
    pub fn plan(&self) -> (plan: &TransferPlan)
        requires
            self.wf(),
        ensures
            plan.wf(),
            plan.total_size == self@.file_size,
            plan.part_size == self@.part_size,
            plan.start_offset == 0,
            plan.parts@.len() == self@.part_total(),
            forall|k: int|
                0 <= k < plan.parts@.len() ==> (#[trigger] plan.parts@[k]).upload_target
                    == self@.targets[k],
    {
        &self.plan
    }

    /// Number of parts that the session request declares.
    pub fn declared_parts(&self) -> (n: u32)
        requires
            self.wf(),
        ensures
            n == self@.part_total(),
    {
        self.plan.parts.len() as u32
    }

    /// Where the upload stands.
    pub fn phase(&self) -> (phase: UploadPhase)
        ensures
            phase == self@.phase,
    {
        self.phase
    }

    /// The session, once the server has answered without an error code.
    pub fn session(&self) -> (session: &Option<TransferSession>)
        ensures
            *session == self@.session,
    {
        &self.session
    }

    /// Part `k` (counted from 0): its number, its byte range as the part size
    /// gives it, the last part cut off at the end of the file, and its target.
    pub fn part(&self, k: usize) -> (part: &PartDescriptor)
        requires
            self.wf(),
            k < self@.part_total(),
        ensures
            part.is_part(0, self@.part_size as int, self@.file_size as int, k as int),
            part.upload_target == self@.targets[k as int],
    {
        &self.plan.parts[k]
    }

    /// Number of bytes that are on the server for good: the bytes of the parts
    /// before the one that the upload has reached. After a failed attempt the
    /// progress shown goes back to this.
    pub fn confirmed_bytes(&self) -> (n: u64)
        requires
            self.wf(),
        ensures
            n == self@.confirmed_bytes(),
    {
        proof {
            crate::plan::lemma_plan_partitions(self.plan);
            crate::plan::lemma_part_index_bound(
                self.plan.total_size as int,
                self.plan.part_size as int,
                self.confirmed as int,
            );
        }
        if self.confirmed < self.plan.parts.len() {
            assert(self.plan.parts@[self.confirmed as int].is_part(
                0,
                self.plan.part_size as int,
                self.plan.total_size as int,
                self.confirmed as int,
            ));
            self.plan.parts[self.confirmed].start
        } else {
            self.plan.total_size
        }
    }

    /// Turns to part `k` (counted from 0).
    fn enter(&mut self, k: usize) -> (action: UploadAction)
        requires
            old(self).ready(),
            k <= old(self)@.part_total(),
            old(self)@.targets.len() == old(self)@.part_total(),
            old(self)@.part_total() <= u32::MAX,
        ensures
            final(self).wf(),
            (final(self)@, action) == old(self)@.spec_enter(k as int),
    {
        self.confirmed = k;
        if k >= self.plan.parts.len() {
            self.phase = UploadPhase::Finalizing;
            UploadAction::Finalize
        } else if self.plan.parts[k].upload_target.is_none() {
            self.phase = UploadPhase::Failed;
            UploadAction::Fail(TransferError::MissingUploadTarget { part: (k + 1) as u32 })
        } else {
            self.phase = UploadPhase::Sending { part: k, retries: 0 };
            UploadAction::Send { part: k, delay_secs: 0 }
        }
    }

    /// Takes the answer to the session request.
    fn on_session(&mut self, reply: CreateReply) -> (action: UploadAction)
        requires
            old(self).wf(),
            old(self)@.phase is Negotiating,
        ensures
            final(self).wf(),
            (final(self)@, action) == old(self)@.spec_on_session(reply),
    {
        let CreateReply { code, file_id, upload_id, rapid_upload, parts } = reply;
        match code {
            Some(code) => {
                self.phase = UploadPhase::Failed;
                UploadAction::Fail(TransferError::SessionRejected { code })
            },
            None => {
                self.session = Some(
                    TransferSession { file_id, session_id: upload_id, rapid: rapid_upload },
                );
                if rapid_upload {
                    self.phase = UploadPhase::Done;
                    UploadAction::Succeed
                } else if parts.len() != self.plan.parts.len() {
                    self.phase = UploadPhase::Failed;
                    UploadAction::Fail(
                        TransferError::PartCountMismatch {
                            declared: self.plan.parts.len() as u64,
                            received: parts.len() as u64,
                        },
                    )
                } else {
                    self.plan = assign_targets(&self.plan, &parts);
                    proof {
                        assert(self@.targets =~= parts@.map_values(|t: PartTarget| t.upload_url));
                    }
                    self.enter(0)
                }
            },
        }
    }

    /// Takes the end of an attempt to send the current part.
    fn on_part_result(&mut self, part: usize, retries: u32, outcome: Outcome) -> (action:
        UploadAction)
        requires
            old(self).wf(),
            old(self)@.phase == (UploadPhase::Sending { part, retries }),
        ensures
            final(self).wf(),
            (final(self)@, action) == old(self)@.spec_on_part_result(part, retries, outcome),
    {
        match self.policy.decide(outcome, retries) {
            Verdict::Accept => self.enter(part + 1),
            Verdict::RetryAfter(delay_secs) => {
                self.phase = UploadPhase::Sending { part, retries: retries + 1 };
                UploadAction::Send { part, delay_secs }
            },
            Verdict::GiveUp => {
                self.phase = UploadPhase::Failed;
                UploadAction::Fail(
                    TransferError::PartFailed {
                        part: (part + 1) as u32,
                        attempts: retries as u64 + 1,
                        cause: outcome,
                    },
                )
            },
        }
    }

    /// Takes the end of the finalize call.
    fn on_finalize_result(&mut self, outcome: Outcome) -> (action: UploadAction)
        requires
            old(self).wf(),
            old(self)@.phase is Finalizing,
        ensures
            final(self).wf(),
            (final(self)@, action) == old(self)@.spec_on_finalize_result(outcome),
    {
        match outcome {
            Outcome::Success => {
                self.phase = UploadPhase::Done;
                UploadAction::Succeed
            },
            _ => {
                self.phase = UploadPhase::Failed;
                UploadAction::Fail(TransferError::FinalizeFailed { cause: outcome })
            },
        }
    }

    /// Takes what the caller reports and says what to do next.
    pub fn step(&mut self, event: UploadEvent) -> (action: UploadAction)
        requires
            old(self).wf(),
        ensures
            final(self).wf(),
            (final(self)@, action) == old(self)@.spec_step(event),
    {
        match event {
            UploadEvent::Session(reply) => match self.phase {
                UploadPhase::Negotiating => self.on_session(reply),
                _ => UploadAction::Ignore,
            },
            UploadEvent::PartResult(outcome) => match self.phase {
                UploadPhase::Sending { part, retries } => self.on_part_result(
                    part,
                    retries,
                    outcome,
                ),
                _ => UploadAction::Ignore,
            },
            UploadEvent::FinalizeResult(outcome) => match self.phase {
                UploadPhase::Finalizing => self.on_finalize_result(outcome),
                _ => UploadAction::Ignore,
            },
        }
    }
}

} // verus!
