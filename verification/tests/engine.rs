use persevere::descriptor::{Descriptor, IntegrityTokens, Receipt};
use persevere::engine::{Stage, Transfer};
use persevere::failure::Error;
use persevere::part::Part;
use persevere::plan::Plan;
use persevere::signal::{
    Action, DeleteOutcome, Event, Outcome, EXIT_RESUMABLE, EXIT_SUCCESS, EXIT_UNRECOVERABLE,
};

const MAX_PARTS: u64 = 10_000;

fn upload_descriptor() -> Descriptor {
    Descriptor::for_upload(
        String::from("bucket"),
        String::from("key"),
        String::from("/data/source.bin"),
        &Plan { object_size: 25, part_size: 10, part_count: 3 },
        String::from("upload-1"),
    )
}

fn download_descriptor() -> Descriptor {
    Descriptor::for_download(
        String::from("bucket"),
        String::from("key"),
        String::from("/data/out.bin"),
        &Plan { object_size: 25, part_size: 10, part_count: 3 },
    )
}

fn tagged(tag: &str) -> IntegrityTokens {
    IntegrityTokens {
        e_tag: Some(String::from(tag)),
        checksum_crc32: None,
        checksum_crc32_c: None,
        checksum_sha1: None,
        checksum_sha256: None,
    }
}

fn part_ok(tag: &str) -> Event {
    Event::PartTransferred(Ok(tagged(tag)))
}

fn part_retryable(cause: &str) -> Event {
    Event::PartTransferred(Err(Error::Retryable(String::from(cause))))
}

fn part_unrecoverable(cause: &str) -> Event {
    Event::PartTransferred(Err(Error::Unrecoverable(String::from(cause))))
}

fn persisted() -> Event {
    Event::Persisted(Ok(()))
}

fn transfer_part(number: u64, offset: u64, length: u64, attempt: u64) -> Action {
    Action::TransferPart { part: Part { number, offset, length }, attempt }
}

/// Feeds the events to the transfer, in turn, and returns the transfer and
/// every action that was pending along the way, the first one included.
fn drive(mut transfer: Transfer, events: Vec<Event>) -> (Transfer, Vec<Action>) {
    let mut actions = vec![transfer.pending()];
    for event in events {
        transfer = transfer.step(event);
        actions.push(transfer.pending());
    }
    (transfer, actions)
}

#[test]
fn upload_runs_from_start_to_completion() {
    let transfer = Transfer::start(upload_descriptor(), MAX_PARTS).unwrap();
    let (transfer, actions) = drive(
        transfer,
        vec![
            persisted(),
            part_ok("a"),
            persisted(),
            part_ok("b"),
            persisted(),
            part_ok("c"),
            persisted(),
            Event::RemoteCompleted(Ok(())),
            Event::StateDeleted(DeleteOutcome::Deleted),
        ],
    );
    assert_eq!(
        actions,
        vec![
            Action::Persist,
            transfer_part(1, 0, 10, 1),
            Action::Persist,
            transfer_part(2, 10, 10, 1),
            Action::Persist,
            transfer_part(3, 20, 5, 1),
            Action::Persist,
            Action::CompleteRemote,
            Action::DeleteState,
            Action::Finish(Outcome::Completed),
        ]
    );
    assert_eq!(transfer.outcome(), Some(Outcome::Completed));
    assert_eq!(
        transfer.descriptor().receipts,
        vec![
            Receipt { part_number: 1, tokens: tagged("a") },
            Receipt { part_number: 2, tokens: tagged("b") },
            Receipt { part_number: 3, tokens: tagged("c") },
        ]
    );
    assert_eq!(transfer.descriptor().last_completed_part, 3);
}

#[test]
fn download_runs_from_start_to_completion_without_remote_finalizing() {
    let transfer = Transfer::start(download_descriptor(), MAX_PARTS).unwrap();
    let (transfer, actions) = drive(
        transfer,
        vec![
            persisted(),
            Event::PartTransferred(Ok(IntegrityTokens::none())),
            persisted(),
            Event::PartTransferred(Ok(IntegrityTokens::none())),
            persisted(),
            Event::PartTransferred(Ok(IntegrityTokens::none())),
            persisted(),
            Event::StateDeleted(DeleteOutcome::NotFound),
        ],
    );
    assert_eq!(
        actions,
        vec![
            Action::Persist,
            transfer_part(1, 0, 10, 1),
            Action::Persist,
            transfer_part(2, 10, 10, 1),
            Action::Persist,
            transfer_part(3, 20, 5, 1),
            Action::Persist,
            Action::DeleteState,
            Action::Finish(Outcome::Completed),
        ]
    );
    assert!(transfer.descriptor().receipts.is_empty());
    assert_eq!(transfer.descriptor().last_completed_part, 3);
}

#[test]
fn part_two_failing_three_times_leaves_a_resumable_transfer() {
    let transfer = Transfer::start(upload_descriptor(), MAX_PARTS).unwrap();
    let (transfer, actions) = drive(
        transfer,
        vec![
            persisted(),
            part_ok("a"),
            persisted(),
            part_retryable("first"),
            part_retryable("second"),
            part_retryable("third"),
            persisted(),
        ],
    );
    assert_eq!(
        actions,
        vec![
            Action::Persist,
            transfer_part(1, 0, 10, 1),
            Action::Persist,
            transfer_part(2, 10, 10, 1),
            transfer_part(2, 10, 10, 2),
            transfer_part(2, 10, 10, 3),
            Action::Persist,
            Action::Finish(Outcome::FailedRetryable(String::from("third"))),
        ]
    );
    let outcome = transfer.outcome().unwrap();
    assert_eq!(outcome.exit_status(), EXIT_RESUMABLE);
    // What the state file holds: part 1 is done, nothing else.
    let on_disk = transfer.descriptor().clone();
    assert_eq!(on_disk.last_completed_part, 1);
    assert_eq!(on_disk.receipts, vec![Receipt { part_number: 1, tokens: tagged("a") }]);
    // Resuming retries from part 2 only.
    let resumed = Transfer::resume(on_disk, MAX_PARTS).unwrap();
    let (resumed, actions) = drive(
        resumed,
        vec![
            part_ok("b"),
            persisted(),
            part_ok("c"),
            persisted(),
            Event::RemoteCompleted(Ok(())),
            Event::StateDeleted(DeleteOutcome::Deleted),
        ],
    );
    assert_eq!(
        actions,
        vec![
            transfer_part(2, 10, 10, 1),
            Action::Persist,
            transfer_part(3, 20, 5, 1),
            Action::Persist,
            Action::CompleteRemote,
            Action::DeleteState,
            Action::Finish(Outcome::Completed),
        ]
    );
    assert_eq!(
        resumed.descriptor().receipts,
        vec![
            Receipt { part_number: 1, tokens: tagged("a") },
            Receipt { part_number: 2, tokens: tagged("b") },
            Receipt { part_number: 3, tokens: tagged("c") },
        ]
    );
}

#[test]
fn unrecoverable_failure_of_part_two_cancels_the_upload() {
    let transfer = Transfer::start(upload_descriptor(), MAX_PARTS).unwrap();
    let (transfer, actions) = drive(
        transfer,
        vec![
            persisted(),
            part_ok("a"),
            persisted(),
            part_unrecoverable("cannot open the file"),
            Event::RemoteAborted(Ok(())),
        ],
    );
    // The upload is cancelled at the service; no part is tried after the
    // failure, and the state file is neither written again nor deleted.
    assert_eq!(
        actions,
        vec![
            Action::Persist,
            transfer_part(1, 0, 10, 1),
            Action::Persist,
            transfer_part(2, 10, 10, 1),
            Action::AbortRemote,
            Action::Finish(Outcome::FailedUnrecoverable(String::from("cannot open the file"))),
        ]
    );
    let outcome = transfer.outcome().unwrap();
    assert_eq!(outcome.exit_status(), EXIT_UNRECOVERABLE);
    assert_eq!(transfer.descriptor().last_completed_part, 1);
    assert_eq!(
        transfer.descriptor().receipts,
        vec![Receipt { part_number: 1, tokens: tagged("a") }]
    );
}

#[test]
fn unrecoverable_failure_ends_the_same_when_the_cancel_fails() {
    let transfer = Transfer::resume(upload_descriptor(), MAX_PARTS).unwrap();
    let (transfer, actions) = drive(
        transfer,
        vec![
            part_unrecoverable("cannot seek"),
            Event::RemoteAborted(Err(String::from("service unavailable"))),
        ],
    );
    assert_eq!(
        actions,
        vec![
            transfer_part(1, 0, 10, 1),
            Action::AbortRemote,
            Action::Finish(Outcome::FailedUnrecoverable(String::from("cannot seek"))),
        ]
    );
    assert_eq!(
        transfer.outcome(),
        Some(Outcome::FailedUnrecoverable(String::from("cannot seek")))
    );
}

#[test]
fn unrecoverable_failure_of_a_download_needs_no_remote_cleanup() {
    let transfer = Transfer::resume(download_descriptor(), MAX_PARTS).unwrap();
    let (_, actions) = drive(transfer, vec![part_unrecoverable("disk full")]);
    assert_eq!(
        actions,
        vec![
            transfer_part(1, 0, 10, 1),
            Action::Finish(Outcome::FailedUnrecoverable(String::from("disk full"))),
        ]
    );
}

#[test]
fn abort_cancels_the_upload_and_deletes_the_state_file_with_no_part_done() {
    let descriptor = upload_descriptor();
    assert_eq!(descriptor.last_completed_part, 0);
    let transfer = Transfer::abort(descriptor).unwrap();
    let (transfer, actions) = drive(
        transfer,
        vec![Event::RemoteAborted(Ok(())), Event::StateDeleted(DeleteOutcome::Deleted)],
    );
    assert_eq!(
        actions,
        vec![Action::AbortRemote, Action::DeleteState, Action::Finish(Outcome::Aborted)]
    );
    assert_eq!(transfer.outcome().unwrap().exit_status(), EXIT_SUCCESS);
}

#[test]
fn abort_tolerates_a_state_file_that_is_already_gone() {
    let transfer = Transfer::abort(upload_descriptor()).unwrap();
    let (_, actions) = drive(
        transfer,
        vec![Event::RemoteAborted(Ok(())), Event::StateDeleted(DeleteOutcome::NotFound)],
    );
    assert_eq!(actions.last(), Some(&Action::Finish(Outcome::Aborted)));
}

#[test]
fn abort_keeps_the_state_file_when_the_service_refuses() {
    let transfer = Transfer::abort(upload_descriptor()).unwrap();
    let (_, actions) =
        drive(transfer, vec![Event::RemoteAborted(Err(String::from("throttled")))]);
    assert_eq!(
        actions,
        vec![
            Action::AbortRemote,
            Action::Finish(Outcome::FailedRetryable(String::from("throttled"))),
        ]
    );
}

#[test]
fn abort_of_a_download_only_deletes_the_state_file() {
    let mut descriptor = download_descriptor();
    descriptor.last_completed_part = 2;
    let transfer = Transfer::abort(descriptor).unwrap();
    let (_, actions) = drive(transfer, vec![Event::StateDeleted(DeleteOutcome::Deleted)]);
    assert_eq!(actions, vec![Action::DeleteState, Action::Finish(Outcome::Aborted)]);
}

#[test]
fn abort_fails_for_good_when_the_state_file_cannot_be_deleted() {
    let transfer = Transfer::abort(download_descriptor()).unwrap();
    let (_, actions) = drive(
        transfer,
        vec![Event::StateDeleted(DeleteOutcome::Failed(String::from("permission denied")))],
    );
    assert_eq!(
        actions.last(),
        Some(&Action::Finish(Outcome::FailedUnrecoverable(String::from("permission denied"))))
    );
}

#[test]
fn resume_after_an_interruption_finishes_like_an_uninterrupted_run() {
    let rest = || {
        vec![
            part_retryable("hiccup"),
            part_ok("b"),
            persisted(),
            part_ok("c"),
            persisted(),
            Event::RemoteCompleted(Ok(())),
            Event::StateDeleted(DeleteOutcome::Deleted),
        ]
    };
    // Uninterrupted: start, part 1, its progress written, then the rest.
    let transfer = Transfer::start(upload_descriptor(), MAX_PARTS).unwrap();
    let (transfer, _) = drive(transfer, vec![persisted(), part_ok("a"), persisted()]);
    let on_disk = transfer.descriptor().clone();
    let (uninterrupted, uninterrupted_actions) = drive(transfer, rest());
    // Interrupted right after part 1 was written, and resumed from disk.
    let resumed = Transfer::resume(on_disk, MAX_PARTS).unwrap();
    let (resumed, resumed_actions) = drive(resumed, rest());
    assert_eq!(uninterrupted_actions, resumed_actions);
    assert_eq!(uninterrupted.descriptor(), resumed.descriptor());
    assert_eq!(uninterrupted.outcome(), resumed.outcome());
    assert_eq!(resumed.outcome(), Some(Outcome::Completed));
}

#[test]
fn resume_never_transfers_a_completed_part_again() {
    let mut descriptor = download_descriptor();
    descriptor.last_completed_part = 2;
    let transfer = Transfer::resume(descriptor, MAX_PARTS).unwrap();
    let (_, actions) = drive(
        transfer,
        vec![
            part_retryable("x"),
            part_retryable("y"),
            Event::PartTransferred(Ok(IntegrityTokens::none())),
            persisted(),
        ],
    );
    for action in &actions {
        if let Action::TransferPart { part, .. } = action {
            assert_eq!(part.number, 3);
        }
    }
    assert_eq!(
        actions,
        vec![
            transfer_part(3, 20, 5, 1),
            transfer_part(3, 20, 5, 2),
            transfer_part(3, 20, 5, 3),
            Action::Persist,
            Action::DeleteState,
        ]
    );
}

#[test]
fn resume_with_every_part_done_goes_straight_to_completing() {
    let transfer = Transfer::start(upload_descriptor(), MAX_PARTS).unwrap();
    let (transfer, actions) = drive(
        transfer,
        vec![
            persisted(),
            part_ok("a"),
            persisted(),
            part_ok("b"),
            persisted(),
            part_ok("c"),
            persisted(),
            Event::RemoteCompleted(Err(String::from("internal error"))),
        ],
    );
    assert_eq!(
        actions.last(),
        Some(&Action::Finish(Outcome::FailedRetryable(String::from("internal error"))))
    );
    let resumed = Transfer::resume(transfer.descriptor().clone(), MAX_PARTS).unwrap();
    assert_eq!(resumed.pending(), Action::CompleteRemote);
    assert_eq!(resumed.stage(), &Stage::Completing);
}

#[test]
fn failing_to_write_the_state_file_is_unrecoverable() {
    let transfer = Transfer::start(upload_descriptor(), MAX_PARTS).unwrap();
    let (_, actions) = drive(
        transfer,
        vec![
            Event::Persisted(Err(String::from("read-only file system"))),
            Event::RemoteAborted(Ok(())),
        ],
    );
    assert_eq!(
        actions,
        vec![
            Action::Persist,
            Action::AbortRemote,
            Action::Finish(Outcome::FailedUnrecoverable(String::from("read-only file system"))),
        ]
    );
    let transfer = Transfer::resume(download_descriptor(), MAX_PARTS).unwrap();
    let (_, actions) = drive(
        transfer,
        vec![
            part_retryable("a"),
            part_retryable("b"),
            part_retryable("c"),
            Event::Persisted(Err(String::from("disk full"))),
        ],
    );
    assert_eq!(
        actions.last(),
        Some(&Action::Finish(Outcome::FailedUnrecoverable(String::from("disk full"))))
    );
}

#[test]
fn failing_to_delete_the_state_file_after_completion_is_unrecoverable() {
    let mut descriptor = download_descriptor();
    descriptor.last_completed_part = 3;
    let transfer = Transfer::resume(descriptor, MAX_PARTS).unwrap();
    let (_, actions) = drive(
        transfer,
        vec![Event::StateDeleted(DeleteOutcome::Failed(String::from("busy")))],
    );
    assert_eq!(
        actions,
        vec![
            Action::DeleteState,
            Action::Finish(Outcome::FailedUnrecoverable(String::from("busy"))),
        ]
    );
}

#[test]
fn upload_with_too_many_parts_is_cancelled_before_any_part() {
    let descriptor = Descriptor::for_upload(
        String::from("bucket"),
        String::from("key"),
        String::from("/data/source.bin"),
        &Plan { object_size: 25, part_size: 10, part_count: 3 },
        String::from("upload-1"),
    );
    let cause = "The number of parts exceeds the maximum number of parts allowed by the service";
    let transfer = Transfer::resume(descriptor.clone(), 2).unwrap();
    let (_, actions) = drive(transfer, vec![Event::RemoteAborted(Ok(()))]);
    assert_eq!(
        actions,
        vec![
            Action::AbortRemote,
            Action::Finish(Outcome::FailedUnrecoverable(String::from(cause))),
        ]
    );
    let transfer = Transfer::start(descriptor.clone(), 2).unwrap();
    assert_eq!(transfer.pending(), Action::AbortRemote);
    let transfer = Transfer::start(descriptor, 3).unwrap();
    assert_eq!(transfer.pending(), Action::Persist);
}

#[test]
fn inconsistent_descriptor_is_refused() {
    let cause =
        "The state of the transfer is inconsistent; the state file may have been edited or damaged";
    let mut descriptor = upload_descriptor();
    descriptor.part_size = 0;
    assert_eq!(
        Transfer::resume(descriptor.clone(), MAX_PARTS).err(),
        Some(Error::Unrecoverable(String::from(cause)))
    );
    assert_eq!(
        Transfer::start(descriptor.clone(), MAX_PARTS).err(),
        Some(Error::Unrecoverable(String::from(cause)))
    );
    assert_eq!(
        Transfer::abort(descriptor).err(),
        Some(Error::Unrecoverable(String::from(cause)))
    );
}

#[test]
fn event_that_answers_another_action_changes_nothing() {
    let transfer = Transfer::start(upload_descriptor(), MAX_PARTS).unwrap();
    let (transfer, actions) = drive(
        transfer,
        vec![
            part_ok("stray"),
            Event::RemoteCompleted(Ok(())),
            Event::StateDeleted(DeleteOutcome::Deleted),
            Event::RemoteAborted(Ok(())),
        ],
    );
    assert_eq!(actions, vec![Action::Persist; 5]);
    assert_eq!(transfer.descriptor(), &upload_descriptor());
    assert_eq!(transfer.stage(), &Stage::Persisting);
    let (transfer, actions) =
        drive(transfer, vec![persisted(), persisted(), Event::RemoteAborted(Ok(()))]);
    assert_eq!(
        actions,
        vec![
            Action::Persist,
            transfer_part(1, 0, 10, 1),
            transfer_part(1, 0, 10, 1),
            transfer_part(1, 0, 10, 1),
        ]
    );
    assert_eq!(transfer.outcome(), None);
}

#[test]
fn finished_transfer_stays_finished() {
    let transfer = Transfer::abort(download_descriptor()).unwrap();
    let (transfer, actions) = drive(
        transfer,
        vec![
            Event::StateDeleted(DeleteOutcome::Deleted),
            persisted(),
            part_ok("late"),
            Event::StateDeleted(DeleteOutcome::Failed(String::from("late"))),
        ],
    );
    assert_eq!(
        actions,
        vec![
            Action::DeleteState,
            Action::Finish(Outcome::Aborted),
            Action::Finish(Outcome::Aborted),
            Action::Finish(Outcome::Aborted),
            Action::Finish(Outcome::Aborted),
        ]
    );
    assert_eq!(transfer.outcome(), Some(Outcome::Aborted));
}

#[test]
fn exit_status_tells_the_three_endings_apart() {
    assert_eq!(EXIT_SUCCESS, 0);
    assert_eq!(EXIT_UNRECOVERABLE, 1);
    assert_eq!(EXIT_RESUMABLE, 75);
    assert_eq!(Outcome::Completed.exit_status(), 0);
    assert_eq!(Outcome::Aborted.exit_status(), 0);
    assert_eq!(Outcome::FailedRetryable(String::from("x")).exit_status(), 75);
    assert_eq!(Outcome::FailedUnrecoverable(String::from("x")).exit_status(), 1);
}

#[test]
fn outcome_turns_into_the_result_of_the_transfer() {
    assert_eq!(Outcome::Completed.into_result(), Ok(()));
    assert_eq!(Outcome::Aborted.into_result(), Ok(()));
    assert_eq!(
        Outcome::FailedRetryable(String::from("x")).into_result(),
        Err(Error::Retryable(String::from("x")))
    );
    assert_eq!(
        Outcome::FailedUnrecoverable(String::from("y")).into_result(),
        Err(Error::Unrecoverable(String::from("y")))
    );
    let outcome = Outcome::FailedRetryable(String::from("z"));
    assert_eq!(outcome.duplicate(), outcome);
}
