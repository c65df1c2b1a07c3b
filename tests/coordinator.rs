use domo_pitchfork::coordinator::{Pending, Request, Step, UploadCoordinator, UploadError};
use domo_pitchfork::error::{PitchforkError, PitchforkErrorKind};
use domo_pitchfork::stream::StreamExecution;

fn execution(id: usize) -> StreamExecution {
    StreamExecution {
        id,
        started_at: None,
        ended_at: None,
        current_state: Some("ACTIVE".to_string()),
        created_at: None,
        modified_at: None,
    }
}

fn network_error() -> PitchforkError {
    PitchforkError {
        kind: PitchforkErrorKind::DomoBadRequest(500, "boom".to_string()),
        source: None,
    }
}

/// Serve every call of `step` with `execution(id)`, recording the calls.
fn serve(c: &mut UploadCoordinator, mut step: Step, id: usize, calls: &mut Vec<Request>) -> Step {
    loop {
        match step {
            Step::Call(req) => {
                calls.push(req);
                step = c.resume(Ok(execution(id)));
            }
            done => return done,
        }
    }
}

fn is_buffered(step: &Step) -> bool {
    matches!(step, Step::Done(Ok(None)))
}

fn part_bytes(calls: &[Request]) -> Vec<u8> {
    let mut all = Vec::new();
    for c in calls {
        if let Request::UploadPart { bytes, .. } = c {
            all.extend_from_slice(bytes);
        }
    }
    all
}

#[test]
fn three_small_uploads_cross_the_threshold_on_the_third() {
    let mut c = UploadCoordinator::new(10);
    let mut calls = Vec::new();
    let s1 = c.begin_upload(b"a,1\n");
    assert!(is_buffered(&s1));
    let s2 = c.begin_upload(b"b,2\n");
    assert!(is_buffered(&s2));
    assert_eq!(c.buffered_len(), 8);
    let s3 = c.begin_upload(b"c,3\n");
    let done = serve(&mut c, s3, 7, &mut calls);
    assert_eq!(calls.len(), 2);
    assert!(matches!(calls[0], Request::CreateSession));
    match &calls[1] {
        Request::UploadPart { session, part, bytes } => {
            assert_eq!(*session, 7);
            assert_eq!(*part, 0);
            assert_eq!(bytes.as_slice(), b"a,1\nb,2\nc,3\n");
        }
        other => panic!("unexpected call {:?}", other),
    }
    assert_eq!(c.buffered_len(), 0);
    match done {
        Step::Done(Ok(Some(x))) => assert_eq!(x.id, 7),
        other => panic!("unexpected step {:?}", other),
    }
}

#[test]
fn small_upload_then_commit_makes_three_calls() {
    let mut c = UploadCoordinator::new(100);
    let mut calls = Vec::new();
    let s = c.begin_upload(b"hello");
    assert!(is_buffered(&s));
    assert_eq!(c.session(), None);
    let s = c.begin_commit();
    let done = serve(&mut c, s, 42, &mut calls);
    assert_eq!(calls.len(), 3);
    assert!(matches!(calls[0], Request::CreateSession));
    match &calls[1] {
        Request::UploadPart { session, part, bytes } => {
            assert_eq!((*session, *part), (42, 0));
            assert_eq!(bytes.as_slice(), b"hello");
        }
        other => panic!("unexpected call {:?}", other),
    }
    assert!(matches!(calls[2], Request::CommitSession { session: 42 }));
    assert!(matches!(done, Step::Done(Ok(Some(_)))));
    assert_eq!(c.session(), None);
    assert_eq!(c.next_part(), 0);
    assert!(c.is_idle());
}

#[test]
fn abort_without_session_makes_no_call() {
    let mut c = UploadCoordinator::new(10);
    let s = c.begin_abort();
    assert!(matches!(s, Step::Done(Err(UploadError::NoActiveSession))));
    assert!(c.is_idle());
    assert_eq!(c.session(), None);
}

#[test]
fn commit_starts_a_new_session_and_numbering() {
    let mut c = UploadCoordinator::new(4);
    let mut calls = Vec::new();
    let s = c.begin_upload(b"12345");
    serve(&mut c, s, 1, &mut calls);
    let s = c.begin_upload(b"67890");
    serve(&mut c, s, 1, &mut calls);
    assert_eq!(c.next_part(), 2);
    let s = c.begin_commit();
    serve(&mut c, s, 1, &mut calls);
    calls.clear();
    let s = c.begin_upload(b"abcdef");
    serve(&mut c, s, 2, &mut calls);
    assert!(matches!(calls[0], Request::CreateSession));
    match &calls[1] {
        Request::UploadPart { session, part, .. } => assert_eq!((*session, *part), (2, 0)),
        other => panic!("unexpected call {:?}", other),
    }
}

#[test]
fn every_uploaded_byte_reaches_a_part() {
    let mut c = UploadCoordinator::new(7);
    let mut calls = Vec::new();
    let payloads: Vec<&[u8]> = vec![b"t1-r1\n", b"t2-r1\n", b"t1-r2\n", b"t3-r1\n", b"x\n", b"t2-r2\n"];
    let mut expected = Vec::new();
    for p in &payloads {
        expected.extend_from_slice(p);
        let s = c.begin_upload(p);
        serve(&mut c, s, 9, &mut calls);
    }
    let s = c.begin_commit();
    serve(&mut c, s, 9, &mut calls);
    assert_eq!(part_bytes(&calls), expected);
    let parts: Vec<usize> = calls
        .iter()
        .filter_map(|r| match r {
            Request::UploadPart { part, .. } => Some(*part),
            _ => None,
        })
        .collect();
    let mut sorted = parts.clone();
    sorted.dedup();
    assert_eq!(parts, sorted);
}

#[test]
fn upload_at_exact_threshold_flushes() {
    let mut c = UploadCoordinator::new(4);
    let mut calls = Vec::new();
    let s = c.begin_upload(b"abcd");
    let done = serve(&mut c, s, 3, &mut calls);
    assert_eq!(calls.len(), 2);
    assert_eq!(part_bytes(&calls), b"abcd".to_vec());
    assert!(matches!(done, Step::Done(Ok(Some(_)))));
    assert_eq!(c.buffered_len(), 0);
}

#[test]
fn failed_part_upload_is_reported_and_bytes_are_not_restored() {
    let mut c = UploadCoordinator::new(2);
    let s = c.begin_upload(b"abc");
    assert!(matches!(s, Step::Call(Request::CreateSession)));
    let s = c.resume(Ok(execution(5)));
    assert!(matches!(s, Step::Call(Request::UploadPart { .. })));
    let s = c.resume(Err(network_error()));
    match s {
        Step::Done(Err(UploadError::Remote(e))) => {
            assert!(matches!(e.kind, PitchforkErrorKind::DomoBadRequest(500, _)))
        }
        other => panic!("unexpected step {:?}", other),
    }
    assert_eq!(c.buffered_len(), 0);
    assert_eq!(c.session(), Some(5));
    assert_eq!(c.next_part(), 1);
}

#[test]
fn failed_session_creation_keeps_the_buffer() {
    let mut c = UploadCoordinator::new(2);
    let s = c.begin_upload(b"abc");
    assert!(matches!(s, Step::Call(Request::CreateSession)));
    let s = c.resume(Err(network_error()));
    assert!(matches!(s, Step::Done(Err(UploadError::Remote(_)))));
    assert_eq!(c.buffered_len(), 3);
    assert_eq!(c.session(), None);
    assert!(c.is_idle());
}

#[test]
fn failed_commit_keeps_the_session() {
    let mut c = UploadCoordinator::new(100);
    let s = c.begin_commit();
    assert!(matches!(s, Step::Call(Request::CreateSession)));
    let s = c.resume(Ok(execution(8)));
    assert!(matches!(s, Step::Call(Request::UploadPart { session: 8, part: 0, .. })));
    let s = c.resume(Ok(execution(8)));
    assert!(matches!(s, Step::Call(Request::CommitSession { session: 8 })));
    let s = c.resume(Err(network_error()));
    assert!(matches!(s, Step::Done(Err(UploadError::Remote(_)))));
    assert_eq!(c.session(), Some(8));
    assert_eq!(c.pending(), Pending::Idle);
}

#[test]
fn test_create_execution() {
    let mut c = UploadCoordinator::new(1);
    let s = c.begin_upload(b"x");
    assert!(matches!(s, Step::Call(Request::CreateSession)));
    assert_eq!(c.pending(), Pending::UploadCreate);
    let s = c.resume(Ok(execution(11)));
    assert!(matches!(s, Step::Call(Request::UploadPart { session: 11, part: 0, .. })));
    assert_eq!(c.session(), Some(11));
}

#[test]
fn test_commit_execution() {
    let mut c = UploadCoordinator::new(3);
    let mut calls = Vec::new();
    let s = c.begin_upload(b"abc");
    serve(&mut c, s, 4, &mut calls);
    calls.clear();
    let s = c.begin_commit();
    let done = serve(&mut c, s, 4, &mut calls);
    assert_eq!(calls.len(), 2);
    match &calls[0] {
        Request::UploadPart { session, part, bytes } => {
            assert_eq!((*session, *part), (4, 1));
            assert!(bytes.is_empty());
        }
        other => panic!("unexpected call {:?}", other),
    }
    assert!(matches!(calls[1], Request::CommitSession { session: 4 }));
    assert!(matches!(done, Step::Done(Ok(Some(_)))));
    assert_eq!(c.session(), None);
}

#[test]
fn test_abort_execution() {
    let mut c = UploadCoordinator::new(3);
    let mut calls = Vec::new();
    let s = c.begin_upload(b"abc");
    serve(&mut c, s, 6, &mut calls);
    let s = c.begin_upload(b"d");
    assert!(is_buffered(&s));
    let s = c.begin_abort();
    assert!(matches!(s, Step::Call(Request::AbortSession { session: 6 })));
    let s = c.resume(Ok(execution(6)));
    assert!(matches!(s, Step::Done(Ok(Some(_)))));
    assert_eq!(c.buffered_len(), 0);
    assert_eq!(c.next_part(), 0);
    assert_eq!(c.session(), None);
}

#[test]
fn failed_abort_keeps_everything() {
    let mut c = UploadCoordinator::new(3);
    let mut calls = Vec::new();
    let s = c.begin_upload(b"abc");
    serve(&mut c, s, 6, &mut calls);
    let s = c.begin_upload(b"d");
    assert!(is_buffered(&s));
    let s = c.begin_abort();
    assert!(matches!(s, Step::Call(Request::AbortSession { session: 6 })));
    let s = c.resume(Err(network_error()));
    assert!(matches!(s, Step::Done(Err(UploadError::Remote(_)))));
    assert_eq!(c.buffered_len(), 1);
    assert_eq!(c.session(), Some(6));
}

#[test]
fn test_upload_data_part_str() {
    let mut c = UploadCoordinator::new(5);
    let mut calls = Vec::new();
    let s = c.begin_upload("Sample Data,0\nTest AB,1\n".as_bytes());
    serve(&mut c, s, 2, &mut calls);
    assert_eq!(part_bytes(&calls), b"Sample Data,0\nTest AB,1\n".to_vec());
    assert_eq!(c.threshold(), 5);
}
