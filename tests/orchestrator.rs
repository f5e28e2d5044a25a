use multipart_upload::{
    part_body, Action, CompletedPart, FailureKind, Orchestrator, Reply, UploadFailure, UploadTarget,
};

fn target() -> UploadTarget {
    UploadTarget { bucket: "photos".to_string(), key: "big.bin".to_string() }
}

fn ok(value: &str) -> Reply {
    Reply::Succeeded(Some(value.to_string()))
}

fn failed(cause: &str) -> Reply {
    Reply::Failed(cause.to_string())
}

fn upload(id: &str, part_number: usize, length: usize) -> Action {
    Action::UploadPart { upload_id: id.to_string(), part_number, length }
}

fn part(part_number: usize, tag: &str) -> CompletedPart {
    CompletedPart { part_number, e_tag: Some(tag.to_string()) }
}

/// Runs an upload against the given answers and returns every action,
/// the first included, until `Finish`.
fn drive(sizes: Vec<usize>, replies: Vec<Reply>) -> Vec<Action> {
    let (mut orchestrator, first) = Orchestrator::start(target(), sizes);
    let mut actions = vec![first];
    for reply in replies {
        if orchestrator.is_finished() {
            break;
        }
        actions.push(orchestrator.step(reply));
    }
    actions
}

fn outcome(actions: &[Action]) -> &Result<(), UploadFailure> {
    match actions.last() {
        Some(Action::Finish(outcome)) => outcome,
        other => panic!("the upload did not finish: {:?}", other),
    }
}

#[test]
fn three_parts_all_succeed() {
    let actions = drive(
        vec![5, 5, 5],
        vec![ok("U1"), ok("e1"), ok("e2"), ok("e3"), Reply::Succeeded(None)],
    );
    assert_eq!(
        actions,
        vec![
            Action::BeginSession,
            upload("U1", 1, 5),
            upload("U1", 2, 5),
            upload("U1", 3, 5),
            Action::FinalizeSession {
                upload_id: "U1".to_string(),
                parts: vec![part(1, "e1"), part(2, "e2"), part(3, "e3")],
            },
            Action::Finish(Ok(())),
        ]
    );
}

#[test]
fn sizes_are_sent_in_the_order_given() {
    let actions = drive(
        vec![7, 3, 9, 1],
        vec![ok("S"), ok("a"), ok("b"), ok("c"), ok("d"), Reply::Succeeded(None)],
    );
    let uploads: Vec<&Action> =
        actions.iter().filter(|a| matches!(a, Action::UploadPart { .. })).collect();
    assert_eq!(uploads, vec![&upload("S", 1, 7), &upload("S", 2, 3), &upload("S", 3, 9), &upload("S", 4, 1)]);
    assert_eq!(outcome(&actions), &Ok(()));
    assert!(!actions.iter().any(|a| matches!(a, Action::AbortSession { .. })));
}

#[test]
fn missing_integrity_tag_is_passed_on_as_is() {
    let actions = drive(vec![4], vec![ok("S"), Reply::Succeeded(None), Reply::Succeeded(None)]);
    assert_eq!(
        actions[2],
        Action::FinalizeSession {
            upload_id: "S".to_string(),
            parts: vec![CompletedPart { part_number: 1, e_tag: None }],
        }
    );
}

#[test]
fn second_part_fails_and_session_is_aborted() {
    let actions = drive(vec![5, 5], vec![ok("U1"), ok("e1"), failed("part 2 refused"), Reply::Succeeded(None)]);
    assert_eq!(
        actions,
        vec![
            Action::BeginSession,
            upload("U1", 1, 5),
            upload("U1", 2, 5),
            Action::AbortSession { upload_id: "U1".to_string() },
            Action::Finish(Err(UploadFailure {
                kind: FailureKind::PartUploadFailed { part_number: 2, cause: "part 2 refused".to_string() },
                upload_id: Some("U1".to_string()),
            })),
        ]
    );
}

#[test]
fn first_part_fails_and_nothing_more_is_sent() {
    let actions = drive(vec![5, 5, 5], vec![ok("U9"), failed("too small"), failed("abort refused"), ok("x")]);
    assert_eq!(actions.len(), 4);
    assert_eq!(actions[2], Action::AbortSession { upload_id: "U9".to_string() });
    assert_eq!(
        outcome(&actions),
        &Err(UploadFailure {
            kind: FailureKind::PartUploadFailed { part_number: 1, cause: "too small".to_string() },
            upload_id: Some("U9".to_string()),
        })
    );
}

#[test]
fn begin_failure_needs_no_abort() {
    let actions = drive(vec![5, 5], vec![failed("no such bucket"), ok("ignored")]);
    assert_eq!(
        actions,
        vec![
            Action::BeginSession,
            Action::Finish(Err(UploadFailure {
                kind: FailureKind::SessionCreationFailed("no such bucket".to_string()),
                upload_id: None,
            })),
        ]
    );
}

#[test]
fn begin_without_token_is_a_creation_failure() {
    let actions = drive(vec![5], vec![Reply::Succeeded(None), ok("ignored")]);
    assert_eq!(
        actions,
        vec![
            Action::BeginSession,
            Action::Finish(Err(UploadFailure { kind: FailureKind::SessionTokenMissing, upload_id: None })),
        ]
    );
}

#[test]
fn finalize_failure_aborts_the_session() {
    let actions = drive(vec![8], vec![ok("F"), ok("t"), failed("too small"), Reply::Succeeded(None)]);
    assert_eq!(
        actions,
        vec![
            Action::BeginSession,
            upload("F", 1, 8),
            Action::FinalizeSession { upload_id: "F".to_string(), parts: vec![part(1, "t")] },
            Action::AbortSession { upload_id: "F".to_string() },
            Action::Finish(Err(UploadFailure {
                kind: FailureKind::FinalizationFailed("too small".to_string()),
                upload_id: Some("F".to_string()),
            })),
        ]
    );
}

#[test]
fn abort_failure_does_not_change_the_error() {
    let aborted_fine = drive(vec![5, 5], vec![ok("U1"), ok("e1"), failed("boom"), Reply::Succeeded(None)]);
    let abort_failed = drive(vec![5, 5], vec![ok("U1"), ok("e1"), failed("boom"), failed("abort refused")]);
    assert_eq!(aborted_fine, abort_failed);
    match outcome(&abort_failed) {
        Err(UploadFailure { kind: FailureKind::PartUploadFailed { cause, .. }, .. }) => {
            assert_eq!(cause, "boom")
        }
        other => panic!("unexpected outcome {:?}", other),
    }
}

#[test]
fn empty_size_list_finalizes_with_no_parts() {
    let actions = drive(vec![], vec![ok("E"), Reply::Succeeded(None)]);
    assert_eq!(
        actions,
        vec![
            Action::BeginSession,
            Action::FinalizeSession { upload_id: "E".to_string(), parts: vec![] },
            Action::Finish(Ok(())),
        ]
    );
}

#[test]
fn restart_uses_the_new_session_token() {
    let first = drive(vec![5, 5], vec![ok("U1"), failed("lost")]);
    let second = drive(vec![5, 5], vec![ok("U2"), ok("e1"), ok("e2"), Reply::Succeeded(None)]);
    assert_eq!(first[1], upload("U1", 1, 5));
    for action in &second {
        match action {
            Action::UploadPart { upload_id, .. }
            | Action::FinalizeSession { upload_id, .. }
            | Action::AbortSession { upload_id } => assert_eq!(upload_id, "U2"),
            _ => {}
        }
    }
    assert_eq!(outcome(&second), &Ok(()));
}

#[test]
fn orchestrator_keeps_its_target_and_reports_finish() {
    let (mut orchestrator, first) = Orchestrator::start(target(), vec![1]);
    assert_eq!(first, Action::BeginSession);
    assert_eq!(orchestrator.target(), &target());
    assert!(!orchestrator.is_finished());
    let _ = orchestrator.step(failed("down"));
    assert!(orchestrator.is_finished());
}

#[test]
fn part_body_has_the_requested_length() {
    assert!(part_body(0).is_empty());
    assert_eq!(part_body(1).len(), 1);
    let body = part_body(4096);
    assert_eq!(body.len(), 4096);
    assert!(body.iter().any(|&b| b != 1));
}
