//! The buffered stream upload coordinator.
//!
//! An [`UploadCoordinator`] owns the three pieces of upload state: the byte
//! buffer, the part-sequence counter and the session slot. Every operation
//! (`begin_upload`, `begin_commit`, `begin_abort`) either finishes at once with
//! a [`Step::Done`], or asks its caller to perform one network call with a
//! [`Step::Call`]; the caller performs it and hands the outcome to `resume`,
//! which answers with the next step. Only one operation is in progress at a
//! time: state changes go through a single owner, so a flush can never race
//! with a commit or an abort of the same coordinator.
use vstd::prelude::*;

use crate::error::PitchforkError;
use crate::stream::StreamExecution;

verus! {

/// The network call a coordinator is waiting on, if any.
#[derive(Clone, Copy, Debug, PartialEq, Eq, Structural)]
pub enum Pending {
    /// No operation is in progress.
    Idle,
    /// An upload crossed the threshold; the session for its flush is being created.
    UploadCreate,
    /// The part flushed by an upload is being sent.
    UploadPart,
    /// A commit is creating the session it needs.
    CommitCreate,
    /// The final part of a commit is being sent.
    CommitPart,
    /// The commit call itself is in flight.
    CommitFinish,
    /// The abort call is in flight.
    Abort,
}

/// A network call that the coordinator asks its caller to perform.
#[derive(Clone, Debug)]
pub enum Request {
    /// Create a new stream execution.
    CreateSession,
    /// Upload `bytes` as data part number `part` of execution `session`.
    UploadPart { session: usize, part: usize, bytes: Vec<u8> },
    /// Commit execution `session`.
    CommitSession { session: usize },
    /// Abort execution `session`.
    AbortSession { session: usize },
}

/// The mathematical value of a [`Request`].
pub enum RequestModel {
    CreateSession,
    UploadPart { session: usize, part: nat, bytes: Seq<u8> },
    CommitSession { session: usize },
    AbortSession { session: usize },
}

impl View for Request {
    type V = RequestModel;

    open spec fn view(&self) -> RequestModel {
        match self {
            Request::CreateSession => RequestModel::CreateSession,
            Request::UploadPart { session, part, bytes } => RequestModel::UploadPart {
                session: *session,
                part: *part as nat,
                bytes: bytes@,
            },
            Request::CommitSession { session } => RequestModel::CommitSession { session: *session },
            Request::AbortSession { session } => RequestModel::AbortSession { session: *session },
        }
    }
}

/// Why an operation of the coordinator failed.
#[derive(Clone, Debug)]
pub enum UploadError {
    /// `abort` was asked for while no execution was active.
    NoActiveSession,
    /// A network call failed; the error is the one the caller handed back.
    Remote(PitchforkError),
}

/// What an operation answers: a network call to perform, or its result.
///
/// The result of an upload is `Ok(None)` when it only buffered and
/// `Ok(Some(execution))` when it flushed a part; commit and abort answer
/// `Ok(Some(execution))` on success.
#[derive(Debug)]
pub enum Step {
    Call(Request),
    Done(Result<Option<StreamExecution>, UploadError>),
}

/// The mathematical value of a [`Step`].
pub enum StepModel {
    Call(RequestModel),
    Done(Result<Option<StreamExecution>, UploadError>),
}

impl View for Step {
    type V = StepModel;

    open spec fn view(&self) -> StepModel {
        match self {
            Step::Call(req) => StepModel::Call(req@),
            Step::Done(res) => StepModel::Done(*res),
        }
    }
}

/// The abstract state of a coordinator.
pub struct CoordinatorState {
    /// Buffer length at which an upload flushes.
    pub threshold: nat,
    /// Serialized bytes accepted and not yet flushed.
    pub buffer: Seq<u8>,
    /// The number the next flushed part gets.
    pub next_part: nat,
    /// The id of the active execution, if one was created.
    pub session: Option<usize>,
    /// The network call in flight.
    pub pending: Pending,
}

impl CoordinatorState {
    /// A coordinator that has never uploaded anything.
    pub open spec fn fresh(threshold: nat) -> CoordinatorState {
        CoordinatorState {
            threshold,
            buffer: Seq::empty(),
            next_part: 0,
            session: None,
            pending: Pending::Idle,
        }
    }

    /// A session exists exactly while the pending call needs one.
    pub open spec fn wf(self) -> bool {
        match self.pending {
            Pending::Idle => true,
            Pending::UploadCreate | Pending::CommitCreate => self.session is None,
            _ => self.session is Some,
        }
    }

    pub open spec fn is_idle(self) -> bool {
        self.pending == Pending::Idle
    }

    /// Snapshot the buffer as the next part of execution `id`, clear it, and
    /// wait for that upload in phase `then`.
    pub open spec fn flush(self, id: usize, then: Pending) -> (CoordinatorState, StepModel) {
        (
            CoordinatorState {
                buffer: Seq::empty(),
                next_part: self.next_part + 1,
                session: Some(id),
                pending: then,
                ..self
            },
            StepModel::Call(
                RequestModel::UploadPart { session: id, part: self.next_part, bytes: self.buffer },
            ),
        )
    }

    /// End the operation in progress with result `res`, keeping the rest.
    pub open spec fn finish(self, res: Result<Option<StreamExecution>, UploadError>) -> (
        CoordinatorState,
        StepModel,
    ) {
        (CoordinatorState { pending: Pending::Idle, ..self }, StepModel::Done(res))
    }

    /// Append `bytes`; flush once the buffer holds at least `threshold` bytes,
    /// creating the execution first where none is active.
    pub open spec fn upload_step(self, bytes: Seq<u8>) -> (CoordinatorState, StepModel) {
        let s = CoordinatorState { buffer: self.buffer + bytes, ..self };
        if s.buffer.len() < self.threshold {
            s.finish(Ok(None))
        } else {
            match self.session {
                None => (
                    CoordinatorState { pending: Pending::UploadCreate, ..s },
                    StepModel::Call(RequestModel::CreateSession),
                ),
                Some(id) => s.flush(id, Pending::UploadPart),
            }
        }
    }

    /// Make sure an execution exists, then flush whatever is buffered (even
    /// nothing) as its final part.
    pub open spec fn commit_step(self) -> (CoordinatorState, StepModel) {
        match self.session {
            None => (
                CoordinatorState { pending: Pending::CommitCreate, ..self },
                StepModel::Call(RequestModel::CreateSession),
            ),
            Some(id) => self.flush(id, Pending::CommitPart),
        }
    }

    /// Abort the active execution; without one, fail with no network call.
    pub open spec fn abort_step(self) -> (CoordinatorState, StepModel) {
        match self.session {
            None => self.finish(Err(UploadError::NoActiveSession)),
            Some(id) => (
                CoordinatorState { pending: Pending::Abort, ..self },
                StepModel::Call(RequestModel::AbortSession { session: id }),
            ),
        }
    }

    /// Take the outcome of the pending network call. A failure ends the
    /// operation and leaves the session as it is; a successful commit or
    /// abort returns the coordinator to its fresh state.
    pub open spec fn resume_step(self, outcome: Result<StreamExecution, PitchforkError>) -> (
        CoordinatorState,
        StepModel,
    ) {
        match outcome {
            Err(e) => self.finish(Err(UploadError::Remote(e))),
            Ok(x) => match self.pending {
                Pending::UploadCreate => self.flush(x.id, Pending::UploadPart),
                Pending::CommitCreate => self.flush(x.id, Pending::CommitPart),
                Pending::UploadPart => self.finish(Ok(Some(x))),
                Pending::CommitPart => (
                    CoordinatorState { pending: Pending::CommitFinish, ..self },
                    StepModel::Call(RequestModel::CommitSession { session: self.session.unwrap() }),
                ),
                Pending::CommitFinish | Pending::Abort => (
                    CoordinatorState::fresh(self.threshold),
                    StepModel::Done(Ok(Some(x))),
                ),
                Pending::Idle => self.finish(Ok(Some(x))),
            },
        }
    }
}

/// The stream upload coordinator: a size-bounded byte buffer, a part counter
/// and a session slot, driven one operation at a time.
pub struct UploadCoordinator {
    threshold: usize,
    buffer: Vec<u8>,
    next_part: usize,
    session: Option<usize>,
    pending: Pending,
}

impl View for UploadCoordinator {
    type V = CoordinatorState;

    closed spec fn view(&self) -> CoordinatorState {
        CoordinatorState {
            threshold: self.threshold as nat,
            buffer: self.buffer@,
            next_part: self.next_part as nat,
            session: self.session,
            pending: self.pending,
        }
    }
}

impl UploadCoordinator {
    /// A coordinator that flushes once `buffer_size` bytes are buffered. The
    /// buffer starts with room for one and a half times that many bytes.
    pub fn new(buffer_size: usize) -> (r: UploadCoordinator)
        ensures
            r@ == CoordinatorState::fresh(buffer_size as nat),
    {
        let half = buffer_size / 2;
        let capacity = buffer_size.saturating_add(half);
        UploadCoordinator {
            threshold: buffer_size,
            buffer: Vec::with_capacity(capacity),
            next_part: 0,
            session: None,
            pending: Pending::Idle,
        }
    }

    pub fn threshold(&self) -> (r: usize)
        ensures
            r as nat == self@.threshold,
    {
        self.threshold
    }

    pub fn buffered_len(&self) -> (r: usize)
        ensures
            r as nat == self@.buffer.len(),
    {
        self.buffer.len()
    }

    pub fn next_part(&self) -> (r: usize)
        ensures
            r as nat == self@.next_part,
    {
        self.next_part
    }

    pub fn session(&self) -> (r: Option<usize>)
        ensures
            r == self@.session,
    {
        self.session
    }

    pub fn pending(&self) -> (r: Pending)
        ensures
            r == self@.pending,
    {
        self.pending
    }

    pub fn is_idle(&self) -> (r: bool)
        ensures
            r == self@.is_idle(),
    {
        self.pending == Pending::Idle
    }

    fn flush(&mut self, id: usize, then: Pending) -> (r: Step)
        requires
            old(self)@.next_part < usize::MAX,
        ensures
            (final(self)@, r@) == old(self)@.flush(id, then),
    {
        let mut bytes: Vec<u8> = Vec::new();
        std::mem::swap(&mut bytes, &mut self.buffer);
        let part = self.next_part;
        self.next_part = part + 1;
        self.session = Some(id);
        self.pending = then;
        Step::Call(Request::UploadPart { session: id, part, bytes })
    }

    /// Accept the serialized bytes of a batch of rows.
    pub fn begin_upload(&mut self, bytes: &[u8]) -> (r: Step)
        requires
            old(self)@.wf(),
            old(self)@.is_idle(),
            old(self)@.next_part < usize::MAX,
        ensures
            (final(self)@, r@) == old(self)@.upload_step(bytes@),
            final(self)@.wf(),
    {
        self.buffer.extend_from_slice(bytes);
        proof {
            assert(self.buffer@ =~= old(self).buffer@ + bytes@);
        }
        if self.buffer.len() < self.threshold {
            Step::Done(Ok(None))
        } else {
            match self.session {
                None => {
                    self.pending = Pending::UploadCreate;
                    Step::Call(Request::CreateSession)
                },
                Some(id) => self.flush(id, Pending::UploadPart),
            }
        }
    }

    /// Start a commit of everything uploaded so far.
    pub fn begin_commit(&mut self) -> (r: Step)
        requires
            old(self)@.wf(),
            old(self)@.is_idle(),
            old(self)@.next_part < usize::MAX,
        ensures
            (final(self)@, r@) == old(self)@.commit_step(),
            final(self)@.wf(),
    {
        match self.session {
            None => {
                self.pending = Pending::CommitCreate;
                Step::Call(Request::CreateSession)
            },
            Some(id) => self.flush(id, Pending::CommitPart),
        }
    }

    /// Start an abort of the active execution.
    pub fn begin_abort(&mut self) -> (r: Step)
        requires
            old(self)@.wf(),
            old(self)@.is_idle(),
        ensures
            (final(self)@, r@) == old(self)@.abort_step(),
            final(self)@.wf(),
    {
        match self.session {
            None => Step::Done(Err(UploadError::NoActiveSession)),
            Some(id) => {
                self.pending = Pending::Abort;
                Step::Call(Request::AbortSession { session: id })
            },
        }
    }

    /// Hand over the outcome of the network call asked for by the last step.
    pub fn resume(&mut self, outcome: Result<StreamExecution, PitchforkError>) -> (r: Step)
        requires
            old(self)@.wf(),
            !old(self)@.is_idle(),
            old(self)@.next_part < usize::MAX,
        ensures
            (final(self)@, r@) == old(self)@.resume_step(outcome),
            final(self)@.wf(),
    {
        match outcome {
            Err(e) => {
                self.pending = Pending::Idle;
                Step::Done(Err(UploadError::Remote(e)))
            },
            Ok(x) => match self.pending {
                Pending::UploadCreate => self.flush(x.id, Pending::UploadPart),
                Pending::CommitCreate => self.flush(x.id, Pending::CommitPart),
                Pending::UploadPart => {
                    self.pending = Pending::Idle;
                    Step::Done(Ok(Some(x)))
                },
                Pending::CommitPart => {
                    let id = match self.session {
                        Some(id) => id,
                        None => 0,
                    };
                    self.pending = Pending::CommitFinish;
                    Step::Call(Request::CommitSession { session: id })
                },
                Pending::CommitFinish | Pending::Abort => {
                    self.buffer.clear();
                    self.next_part = 0;
                    self.session = None;
                    self.pending = Pending::Idle;
                    Step::Done(Ok(Some(x)))
                },
                Pending::Idle => Step::Done(Ok(Some(x))),
            },
        }
    }
}

} // verus!
