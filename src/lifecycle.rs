//! Facts about whole upload cycles of an
//! [`UploadCoordinator`](crate::coordinator::UploadCoordinator).
//!
//! They are stated over the transition functions of [`CoordinatorState`],
//! which the coordinator's methods follow exactly, and over a transport that
//! answers every call successfully with one execution descriptor.
use vstd::prelude::*;

use crate::coordinator::{CoordinatorState, Pending, RequestModel, StepModel, UploadError};
use crate::stream::StreamExecution;

verus! {

/// Serve the calls that step `st` asks for, answering each one with
/// `answer`, for at most `fuel` calls. The result is the state reached, the
/// calls made in order, and the last step.
pub open spec fn drive(
    s: CoordinatorState,
    st: StepModel,
    answer: StreamExecution,
    fuel: nat,
) -> (CoordinatorState, Seq<RequestModel>, StepModel)
    decreases fuel,
{
    match st {
        StepModel::Call(req) => {
            if fuel == 0 {
                (s, Seq::empty(), st)
            } else {
                let next = s.resume_step(Ok(answer));
                let rest = drive(next.0, next.1, answer, (fuel - 1) as nat);
                (rest.0, seq![req] + rest.1, rest.2)
            }
        },
        StepModel::Done(_) => (s, Seq::empty(), st),
    }
}

/// The bytes carried by the part uploads among `reqs`, in order.
pub open spec fn sent_bytes(reqs: Seq<RequestModel>) -> Seq<u8>
    decreases reqs.len(),
{
    if reqs.len() == 0 {
        Seq::empty()
    } else {
        let before = sent_bytes(reqs.drop_last());
        match reqs.last() {
            RequestModel::UploadPart { bytes, .. } => before + bytes,
            _ => before,
        }
    }
}

/// The payloads one after the other.
pub open spec fn concat(payloads: Seq<Seq<u8>>) -> Seq<u8>
    decreases payloads.len(),
{
    if payloads.len() == 0 {
        Seq::empty()
    } else {
        concat(payloads.drop_last()) + payloads.last()
    }
}

/// Upload each payload in turn, serving the calls of each upload with a
/// transport that answers `answer`. The result is the state reached and all
/// calls made.
pub open spec fn serve_uploads(
    s: CoordinatorState,
    payloads: Seq<Seq<u8>>,
    answer: StreamExecution,
) -> (CoordinatorState, Seq<RequestModel>)
    decreases payloads.len(),
{
    if payloads.len() == 0 {
        (s, Seq::empty())
    } else {
        let before = serve_uploads(s, payloads.drop_last(), answer);
        let step = before.0.upload_step(payloads.last());
        let served = drive(step.0, step.1, answer, 2);
        (served.0, before.1 + served.1)
    }
}

/// Commit, serving its calls with a transport that answers `answer`.
pub open spec fn serve_commit(s: CoordinatorState, answer: StreamExecution) -> (
    CoordinatorState,
    Seq<RequestModel>,
    StepModel,
) {
    let step = s.commit_step();
    drive(step.0, step.1, answer, 3)
}

proof fn lemma_sent_bytes_append(a: Seq<RequestModel>, b: Seq<RequestModel>)
    ensures
        sent_bytes(a + b) == sent_bytes(a) + sent_bytes(b),
    decreases b.len(),
{
    if b.len() == 0 {
        assert(a + b =~= a);
        assert(sent_bytes(a) + sent_bytes(b) =~= sent_bytes(a));
    } else {
        lemma_sent_bytes_append(a, b.drop_last());
        assert((a + b).drop_last() =~= a + b.drop_last());
        assert((a + b).last() == b.last());
        match b.last() {
            RequestModel::UploadPart { bytes, .. } => {
                assert(sent_bytes(a + b) =~= sent_bytes(a) + sent_bytes(b));
            },
            _ => {},
        }
    }
}

proof fn lemma_sent_bytes_one(r: RequestModel)
    ensures
        sent_bytes(seq![r]) == match r {
            RequestModel::UploadPart { bytes, .. } => bytes,
            _ => Seq::empty(),
        },
{
    reveal_with_fuel(sent_bytes, 2);
    assert(seq![r].drop_last() =~= Seq::<RequestModel>::empty());
    assert(seq![r].last() == r);
    match r {
        RequestModel::UploadPart { bytes, .. } => {
            assert(Seq::<u8>::empty() + bytes =~= bytes);
        },
        _ => {},
    }
}

/// One upload served by a transport that always succeeds: what it sends
/// followed by what it leaves buffered is the old buffer followed by the
/// payload, and it ends idle after at most two calls.
proof fn lemma_serve_one_upload(s: CoordinatorState, bytes: Seq<u8>, answer: StreamExecution)
    requires
        s.wf(),
        s.is_idle(),
    ensures
        ({
            let step = s.upload_step(bytes);
            let served = drive(step.0, step.1, answer, 2);
            &&& served.0.wf()
            &&& served.0.is_idle()
            &&& served.0.threshold == s.threshold
            &&& sent_bytes(served.1) + served.0.buffer == s.buffer + bytes
            &&& served.2 is Done
            &&& (s.session is Some ==> served.0.session == s.session)
        }),
{
    reveal_with_fuel(drive, 4);
    let step = s.upload_step(bytes);
    let all = s.buffer + bytes;
    if all.len() < s.threshold {
        assert(sent_bytes(Seq::<RequestModel>::empty()) + all =~= all);
    } else {
        let st1 = step.0.resume_step(Ok(answer));
        match s.session {
            None => {
                let st2 = st1.0.resume_step(Ok(answer));
                let part = RequestModel::UploadPart {
                    session: answer.id,
                    part: s.next_part,
                    bytes: all,
                };
                assert(st1.1 == StepModel::Call(part));
                let reqs = seq![RequestModel::CreateSession] + (seq![part] + Seq::<
                    RequestModel,
                >::empty());
                assert(drive(step.0, step.1, answer, 2).1 == reqs);
                assert(reqs =~= seq![RequestModel::CreateSession] + seq![part]);
                lemma_sent_bytes_append(seq![RequestModel::CreateSession], seq![part]);
                lemma_sent_bytes_one(RequestModel::CreateSession);
                lemma_sent_bytes_one(part);
                assert(sent_bytes(reqs) + st2.0.buffer =~= all);
            },
            Some(id) => {
                let part = RequestModel::UploadPart { session: id, part: s.next_part, bytes: all };
                let reqs = seq![part] + Seq::<RequestModel>::empty();
                assert(drive(step.0, step.1, answer, 2).1 == reqs);
                assert(reqs =~= seq![part]);
                lemma_sent_bytes_one(part);
                assert(sent_bytes(reqs) + st1.0.buffer =~= all);
            },
        }
    }
}

proof fn lemma_serve_uploads_conserves(threshold: nat, payloads: Seq<Seq<u8>>, answer: StreamExecution)
    ensures
        ({
            let served = serve_uploads(CoordinatorState::fresh(threshold), payloads, answer);
            &&& served.0.wf()
            &&& served.0.is_idle()
            &&& served.0.threshold == threshold
            &&& sent_bytes(served.1) + served.0.buffer == concat(payloads)
        }),
    decreases payloads.len(),
{
    reveal_with_fuel(drive, 4);
    let fresh = CoordinatorState::fresh(threshold);
    if payloads.len() == 0 {
        assert(sent_bytes(Seq::<RequestModel>::empty()) + fresh.buffer =~= concat(payloads));
    } else {
        lemma_serve_uploads_conserves(threshold, payloads.drop_last(), answer);
        let before = serve_uploads(fresh, payloads.drop_last(), answer);
        let step = before.0.upload_step(payloads.last());
        let served = drive(step.0, step.1, answer, 2);
        lemma_serve_one_upload(before.0, payloads.last(), answer);
        lemma_sent_bytes_append(before.1, served.1);
        assert(sent_bytes(before.1 + served.1) + served.0.buffer =~= concat(payloads));
    }
}

/// Uploads whose bytes stay below the threshold in total make no network
/// call. The commit that follows creates the execution, uploads everything
/// as part 0, commits, and leaves the coordinator fresh: exactly three calls.
pub proof fn lemma_below_threshold_waits_for_commit(
    threshold: nat,
    payloads: Seq<Seq<u8>>,
    answer: StreamExecution,
)
    requires
        concat(payloads).len() < threshold,
    ensures
        ({
            let uploaded = serve_uploads(CoordinatorState::fresh(threshold), payloads, answer);
            let committed = serve_commit(uploaded.0, answer);
            &&& uploaded.1.len() == 0
            &&& uploaded.0.buffer == concat(payloads)
            &&& committed.1 == seq![
                RequestModel::CreateSession,
                RequestModel::UploadPart { session: answer.id, part: 0, bytes: concat(payloads) },
                RequestModel::CommitSession { session: answer.id },
            ]
            &&& committed.2 == StepModel::Done(Ok(Some(answer)))
            &&& committed.0 == CoordinatorState::fresh(threshold)
        }),
    decreases payloads.len(),
{
    reveal_with_fuel(drive, 4);
    let fresh = CoordinatorState::fresh(threshold);
    let uploaded = serve_uploads(fresh, payloads, answer);
    lemma_only_buffered(threshold, payloads, answer);
    let c1 = uploaded.0.commit_step();
    let c2 = c1.0.resume_step(Ok(answer));
    let c3 = c2.0.resume_step(Ok(answer));
    let part = RequestModel::UploadPart { session: answer.id, part: 0, bytes: concat(payloads) };
    assert(c2.1 == StepModel::Call(part));
    assert(c3.1 == StepModel::Call(RequestModel::CommitSession { session: answer.id }));
    assert(c3.0.resume_step(Ok(answer)).0 =~= fresh);
    assert(serve_commit(uploaded.0, answer).1 =~= seq![
        RequestModel::CreateSession,
        part,
        RequestModel::CommitSession { session: answer.id },
    ]);
}

proof fn lemma_only_buffered(threshold: nat, payloads: Seq<Seq<u8>>, answer: StreamExecution)
    requires
        concat(payloads).len() < threshold,
    ensures
        ({
            let uploaded = serve_uploads(CoordinatorState::fresh(threshold), payloads, answer);
            &&& uploaded.1.len() == 0
            &&& uploaded.0 == CoordinatorState {
                buffer: concat(payloads),
                ..CoordinatorState::fresh(threshold)
            }
        }),
    decreases payloads.len(),
{
    reveal_with_fuel(drive, 4);
    if payloads.len() > 0 {
        assert(concat(payloads) == concat(payloads.drop_last()) + payloads.last());
        lemma_only_buffered(threshold, payloads.drop_last(), answer);
        let fresh = CoordinatorState::fresh(threshold);
        let before = serve_uploads(fresh, payloads.drop_last(), answer);
        let step = before.0.upload_step(payloads.last());
        assert(step.0.buffer == concat(payloads));
        assert(before.1 + Seq::<RequestModel>::empty() =~= before.1);
    } else {
        assert(concat(payloads) =~= Seq::<u8>::empty());
    }
}

/// An upload that brings the buffer to the threshold or past it makes
/// exactly one part upload, which carries every byte buffered so far (after
/// creating the execution where none is active), and leaves the buffer empty.
pub proof fn lemma_crossing_threshold_flushes_everything(
    s: CoordinatorState,
    bytes: Seq<u8>,
    answer: StreamExecution,
)
    requires
        s.wf(),
        s.is_idle(),
        s.buffer.len() + bytes.len() >= s.threshold,
    ensures
        ({
            let step = s.upload_step(bytes);
            let served = drive(step.0, step.1, answer, 2);
            let id = match s.session {
                Some(id) => id,
                None => answer.id,
            };
            let part = RequestModel::UploadPart {
                session: id,
                part: s.next_part,
                bytes: s.buffer + bytes,
            };
            &&& served.1 == if s.session is None {
                seq![RequestModel::CreateSession, part]
            } else {
                seq![part]
            }
            &&& served.0.buffer.len() == 0
            &&& served.0.next_part == s.next_part + 1
            &&& served.2 == StepModel::Done(Ok(Some(answer)))
        }),
{
    reveal_with_fuel(drive, 4);
    let step = s.upload_step(bytes);
    let st1 = step.0.resume_step(Ok(answer));
    if s.session is None {
        let st2 = st1.0.resume_step(Ok(answer));
        assert(drive(step.0, step.1, answer, 2).1 =~= seq![
            RequestModel::CreateSession,
            RequestModel::UploadPart {
                session: answer.id,
                part: s.next_part,
                bytes: s.buffer + bytes,
            },
        ]);
    } else {
        assert(drive(step.0, step.1, answer, 2).1 =~= seq![
            RequestModel::UploadPart {
                session: s.session.unwrap(),
                part: s.next_part,
                bytes: s.buffer + bytes,
            },
        ]);
    }
}

/// A successful commit returns the coordinator to its fresh state, so the
/// next cycle does not reuse the old execution: whether it starts with an
/// upload that reaches the threshold or with a commit, its first call creates
/// a new execution, and its first part, sent to that new execution, is
/// numbered 0.
pub proof fn lemma_commit_starts_over(
    s: CoordinatorState,
    committed: StreamExecution,
    created: StreamExecution,
    bytes: Seq<u8>,
)
    requires
        s.wf(),
        s.pending == Pending::CommitFinish,
        bytes.len() >= s.threshold,
    ensures
        ({
            let done = s.resume_step(Ok(committed));
            let up = done.0.upload_step(bytes);
            let com = done.0.commit_step();
            &&& done.1 == StepModel::Done(Ok(Some(committed)))
            &&& done.0 == CoordinatorState::fresh(s.threshold)
            &&& up.1 == StepModel::Call(RequestModel::CreateSession)
            &&& up.0.resume_step(Ok(created)).1 == StepModel::Call(
                RequestModel::UploadPart { session: created.id, part: 0, bytes: bytes },
            )
            &&& com.1 == StepModel::Call(RequestModel::CreateSession)
            &&& com.0.resume_step(Ok(created)).1 == StepModel::Call(
                RequestModel::UploadPart { session: created.id, part: 0, bytes: Seq::empty() },
            )
        }),
{
    let done = s.resume_step(Ok(committed));
    assert(done.0.buffer + bytes =~= bytes);
}

/// Every byte uploaded reaches the transport exactly once and in the order
/// the uploads were served: with a transport that always succeeds, the parts
/// sent by the uploads and by the commit that follows, joined in order, are
/// the payloads joined in order. The commit then ends the cycle.
pub proof fn lemma_no_byte_dropped(threshold: nat, payloads: Seq<Seq<u8>>, answer: StreamExecution)
    ensures
        ({
            let uploaded = serve_uploads(CoordinatorState::fresh(threshold), payloads, answer);
            let committed = serve_commit(uploaded.0, answer);
            &&& sent_bytes(uploaded.1 + committed.1) == concat(payloads)
            &&& committed.2 == StepModel::Done(Ok(Some(answer)))
            &&& committed.0 == CoordinatorState::fresh(threshold)
        }),
{
    reveal_with_fuel(drive, 4);
    let fresh = CoordinatorState::fresh(threshold);
    let uploaded = serve_uploads(fresh, payloads, answer);
    lemma_serve_uploads_conserves(threshold, payloads, answer);
    let s = uploaded.0;
    let c1 = s.commit_step();
    let c2 = c1.0.resume_step(Ok(answer));
    let id = match s.session {
        Some(id) => id,
        None => answer.id,
    };
    let part = RequestModel::UploadPart { session: id, part: s.next_part, bytes: s.buffer };
    let fin = RequestModel::CommitSession { session: id };
    let committed = serve_commit(s, answer);
    if s.session is None {
        let c3 = c2.0.resume_step(Ok(answer));
        assert(c3.0.resume_step(Ok(answer)).0 =~= fresh);
        assert(committed.1 =~= seq![RequestModel::CreateSession] + seq![part] + seq![fin]);
        lemma_sent_bytes_append(seq![RequestModel::CreateSession], seq![part]);
        lemma_sent_bytes_append(seq![RequestModel::CreateSession] + seq![part], seq![fin]);
        lemma_sent_bytes_one(RequestModel::CreateSession);
    } else {
        assert(c2.0.resume_step(Ok(answer)).0 =~= fresh);
        assert(committed.1 =~= seq![part] + seq![fin]);
        lemma_sent_bytes_append(seq![part], seq![fin]);
    }
    lemma_sent_bytes_one(part);
    lemma_sent_bytes_one(fin);
    lemma_sent_bytes_append(uploaded.1, committed.1);
    assert(sent_bytes(committed.1) =~= s.buffer);
}

/// Aborting a coordinator that holds no execution fails with
/// [`UploadError::NoActiveSession`], changes nothing and makes no call.
pub proof fn lemma_abort_without_session(s: CoordinatorState, answer: StreamExecution, fuel: nat)
    requires
        s.is_idle(),
        s.session is None,
    ensures
        s.abort_step() == (s, StepModel::Done(Err(UploadError::NoActiveSession))),
        drive(s.abort_step().0, s.abort_step().1, answer, fuel).1.len() == 0,
{
}

} // verus!
