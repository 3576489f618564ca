//! The transfer as a state machine: the stages it goes through, the action
//! that each stage waits for, and the stage that each event leads to.
//!
//! The machine works on values of mathematics. The engine carries it out on
//! the descriptor it owns, step for step.

use vstd::prelude::*;
use crate::descriptor::DescriptorView;
use crate::retry::decision_for;
use crate::retry::AttemptOutcomeView;
use crate::retry::DecisionView;
use crate::retry::MAX_ATTEMPTS;
use crate::signal::ActionView;
use crate::signal::DeleteOutcomeView;
use crate::signal::EventView;
use crate::signal::OutcomeView;

verus! {

/// Where a transfer stands: what it is waiting for.
pub enum StageView {
    /// The descriptor is being written to the state file, after progress or
    /// at the very start.
    Persisting,
    /// Try number `attempt` at the part that is due is under way.
    Transferring { attempt: nat },
    /// The part that is due has failed at its last try, for this cause; the
    /// descriptor is being written to the state file before the transfer
    /// stops.
    Exhausted { cause: Seq<char> },
    /// Every part is up; the service is completing the upload.
    Completing,
    /// The transfer is complete; its state file is being deleted.
    Cleaning,
    /// The upload has failed for good, for this cause; the service is
    /// cancelling it.
    Cancelling { cause: Seq<char> },
    /// The upload is called off; the service is cancelling it.
    Aborting,
    /// The transfer is called off; its state file is being deleted.
    AbortCleaning,
    /// The transfer has ended.
    Finished(OutcomeView),
}

/// The cause given when an upload has more parts than the service allows.
pub open spec fn too_many_parts_cause() -> Seq<char> {
    "The number of parts exceeds the maximum number of parts allowed by the service"@
}

/// The cause given when the parts that were transferred do not add up to
/// the object.
pub open spec fn size_mismatch_cause() -> Seq<char> {
    "Every part was transferred, but the parts do not add up to the size of the object"@
}

/// Whether a transfer with this descriptor may go on: an upload may not
/// have more parts than `max_part_count`.
pub open spec fn admitted(descriptor: DescriptorView, max_part_count: u64) -> bool {
    descriptor.is_upload() ==> descriptor.part_count <= max_part_count
}

/// A transfer: its descriptor and the stage it is in.
pub struct TransferView {
    pub descriptor: DescriptorView,
    pub stage: StageView,
}

impl TransferView {
    /// The descriptor keeps its rules, and the stage fits it: a part is
    /// tried only while one is due, with a try number the policy allows;
    /// only an upload is completed or cancelled at the service; a transfer
    /// is finalized only when every part is done.
    pub open spec fn wf(self) -> bool {
        &&& self.descriptor.wf()
        &&& match self.stage {
            StageView::Persisting => true,
            StageView::Transferring { attempt } => {
                &&& 1 <= attempt <= MAX_ATTEMPTS
                &&& !self.descriptor.is_complete()
            },
            StageView::Exhausted { .. } => !self.descriptor.is_complete(),
            StageView::Completing => self.descriptor.is_upload() && self.descriptor.is_complete(),
            StageView::Cleaning => self.descriptor.is_complete(),
            StageView::Cancelling { .. } => self.descriptor.is_upload(),
            StageView::Aborting => self.descriptor.is_upload(),
            StageView::AbortCleaning => true,
            StageView::Finished(_) => true,
        }
    }

    /// The transfer gives up for good, for `cause`. An upload is cancelled
    /// at the service before it ends; a download ends at once. The state
    /// file stays as it is.
    pub open spec fn failed(descriptor: DescriptorView, cause: Seq<char>) -> TransferView {
        if descriptor.is_upload() {
            TransferView { descriptor, stage: StageView::Cancelling { cause } }
        } else {
            TransferView {
                descriptor,
                stage: StageView::Finished(OutcomeView::FailedUnrecoverable(cause)),
            }
        }
    }

    /// The transfer goes on from what the descriptor records: to the first
    /// try at the part that is due or, when every part is done and the
    /// parts add up to the object, to finalizing: an upload is completed at
    /// the service, a download has its state file deleted.
    pub open spec fn advanced(descriptor: DescriptorView) -> TransferView {
        if !descriptor.is_complete() {
            TransferView { descriptor, stage: StageView::Transferring { attempt: 1 } }
        } else if descriptor.completed_bytes() != descriptor.object_size {
            Self::failed(descriptor, size_mismatch_cause())
        } else if descriptor.is_upload() {
            TransferView { descriptor, stage: StageView::Completing }
        } else {
            TransferView { descriptor, stage: StageView::Cleaning }
        }
    }

    /// A transfer that starts: its descriptor is written to the state file
    /// before anything is transferred.
    pub open spec fn started(descriptor: DescriptorView, max_part_count: u64) -> TransferView {
        if !admitted(descriptor, max_part_count) {
            Self::failed(descriptor, too_many_parts_cause())
        } else {
            TransferView { descriptor, stage: StageView::Persisting }
        }
    }

    /// A transfer that is taken up again from what its state file records.
    pub open spec fn resumed(descriptor: DescriptorView, max_part_count: u64) -> TransferView {
        if !admitted(descriptor, max_part_count) {
            Self::failed(descriptor, too_many_parts_cause())
        } else {
            Self::advanced(descriptor)
        }
    }

    /// A transfer that is called off: an upload is cancelled at the service
    /// first; then the state file is deleted.
    pub open spec fn called_off(descriptor: DescriptorView) -> TransferView {
        if descriptor.is_upload() {
            TransferView { descriptor, stage: StageView::Aborting }
        } else {
            TransferView { descriptor, stage: StageView::AbortCleaning }
        }
    }

    /// The action that the transfer is waiting for.
    pub open spec fn pending(self) -> ActionView {
        match self.stage {
            StageView::Persisting => ActionView::Persist,
            StageView::Transferring { attempt } => ActionView::TransferPart {
                part: self.descriptor.plan().part_of((self.descriptor.last_completed_part + 1) as nat),
                attempt,
            },
            StageView::Exhausted { .. } => ActionView::Persist,
            StageView::Completing => ActionView::CompleteRemote,
            StageView::Cleaning => ActionView::DeleteState,
            StageView::Cancelling { .. } => ActionView::AbortRemote,
            StageView::Aborting => ActionView::AbortRemote,
            StageView::AbortCleaning => ActionView::DeleteState,
            StageView::Finished(outcome) => ActionView::Finish(outcome),
        }
    }

    /// Whether `event` reports on the action that the transfer is waiting
    /// for.
    pub open spec fn answers(self, event: EventView) -> bool {
        match (self.pending(), event) {
            (ActionView::Persist, EventView::Persisted(_)) => true,
            (ActionView::TransferPart { .. }, EventView::PartTransferred(_)) => true,
            (ActionView::CompleteRemote, EventView::RemoteCompleted(_)) => true,
            (ActionView::AbortRemote, EventView::RemoteAborted(_)) => true,
            (ActionView::DeleteState, EventView::StateDeleted(_)) => true,
            _ => false,
        }
    }

    /// The transfer after `event`. An event that does not report on the
    /// pending action changes nothing: the action stays pending.
    pub open spec fn step(self, event: EventView) -> TransferView {
        let descriptor = self.descriptor;
        match (self.stage, event) {
            (StageView::Transferring { attempt }, EventView::PartTransferred(result)) => {
                match decision_for(attempt, result) {
                    DecisionView::Finished(AttemptOutcomeView::Success(tokens)) => TransferView {
                        descriptor: descriptor.with_success(tokens),
                        stage: StageView::Persisting,
                    },
                    DecisionView::Retry { attempt: next, .. } => TransferView {
                        descriptor,
                        stage: StageView::Transferring { attempt: next },
                    },
                    DecisionView::Finished(
                        AttemptOutcomeView::ExhaustedRetryable(cause),
                    ) => TransferView { descriptor, stage: StageView::Exhausted { cause } },
                    DecisionView::Finished(AttemptOutcomeView::Unrecoverable(cause)) => Self::failed(
                        descriptor,
                        cause,
                    ),
                }
            },
            (StageView::Persisting, EventView::Persisted(Ok(_))) => Self::advanced(descriptor),
            (StageView::Persisting, EventView::Persisted(Err(cause))) => Self::failed(
                descriptor,
                cause,
            ),
            (StageView::Exhausted { cause }, EventView::Persisted(Ok(_))) => TransferView {
                descriptor,
                stage: StageView::Finished(OutcomeView::FailedRetryable(cause)),
            },
            (StageView::Exhausted { .. }, EventView::Persisted(Err(cause))) => Self::failed(
                descriptor,
                cause,
            ),
            (StageView::Completing, EventView::RemoteCompleted(Ok(_))) => TransferView {
                descriptor,
                stage: StageView::Cleaning,
            },
            (StageView::Completing, EventView::RemoteCompleted(Err(cause))) => TransferView {
                descriptor,
                stage: StageView::Finished(OutcomeView::FailedRetryable(cause)),
            },
            (StageView::Cleaning, EventView::StateDeleted(DeleteOutcomeView::Failed(cause))) => {
                TransferView {
                    descriptor,
                    stage: StageView::Finished(OutcomeView::FailedUnrecoverable(cause)),
                }
            },
            (StageView::Cleaning, EventView::StateDeleted(_)) => TransferView {
                descriptor,
                stage: StageView::Finished(OutcomeView::Completed),
            },
            (StageView::Cancelling { cause }, EventView::RemoteAborted(_)) => TransferView {
                descriptor,
                stage: StageView::Finished(OutcomeView::FailedUnrecoverable(cause)),
            },
            (StageView::Aborting, EventView::RemoteAborted(Ok(_))) => TransferView {
                descriptor,
                stage: StageView::AbortCleaning,
            },
            (StageView::Aborting, EventView::RemoteAborted(Err(cause))) => TransferView {
                descriptor,
                stage: StageView::Finished(OutcomeView::FailedRetryable(cause)),
            },
            (
                StageView::AbortCleaning,
                EventView::StateDeleted(DeleteOutcomeView::Failed(cause)),
            ) => TransferView {
                descriptor,
                stage: StageView::Finished(OutcomeView::FailedUnrecoverable(cause)),
            },
            (StageView::AbortCleaning, EventView::StateDeleted(_)) => TransferView {
                descriptor,
                stage: StageView::Finished(OutcomeView::Aborted),
            },
            _ => self,
        }
    }

    /// A descriptor that keeps its rules always passes the last test before
    /// a transfer is finalized: when every part is done, the parts add up
    /// to the object.
    pub proof fn lemma_complete_adds_up(descriptor: DescriptorView)
        requires
            descriptor.wf(),
            descriptor.is_complete(),
        ensures
            descriptor.completed_bytes() == descriptor.object_size,
            Self::advanced(descriptor).stage == if descriptor.is_upload() {
                StageView::Completing
            } else {
                StageView::Cleaning
            },
    {
        descriptor.plan().lemma_covered(descriptor.part_count as nat);
    }

    /// Every way to begin gives a transfer that is well formed.
    pub proof fn lemma_begin_wf(descriptor: DescriptorView, max_part_count: u64)
        requires
            descriptor.wf(),
        ensures
            Self::failed(descriptor, too_many_parts_cause()).wf(),
            Self::advanced(descriptor).wf(),
            Self::started(descriptor, max_part_count).wf(),
            Self::resumed(descriptor, max_part_count).wf(),
            Self::called_off(descriptor).wf(),
    {
        if descriptor.is_complete() {
            Self::lemma_complete_adds_up(descriptor);
        }
    }

    /// A step keeps the transfer well formed and leaves the descriptor's
    /// plan, names and handle alone. The only change a step makes to the
    /// descriptor is to record the success of the part that was due: the
    /// count of completed parts never goes down, and goes up by one at a
    /// time. An event that does not answer the pending action changes
    /// nothing.
    pub proof fn lemma_step(self, event: EventView)
        requires
            self.wf(),
        ensures
            self.step(event).wf(),
            self.step(event).descriptor.plan() == self.descriptor.plan(),
            self.step(event).descriptor.bucket == self.descriptor.bucket,
            self.step(event).descriptor.key == self.descriptor.key,
            self.step(event).descriptor.local_path == self.descriptor.local_path,
            self.step(event).descriptor.transfer_handle == self.descriptor.transfer_handle,
            self.step(event).descriptor.last_completed_part == self.descriptor.last_completed_part
                || self.step(event).descriptor.last_completed_part
                == self.descriptor.last_completed_part + 1,
            self.step(event).descriptor != self.descriptor ==> {
                &&& self.stage is Transferring
                &&& self.step(event).stage is Persisting
                &&& event matches EventView::PartTransferred(Ok(tokens))
                &&& self.step(event).descriptor == self.descriptor.with_success(tokens)
            },
            !self.answers(event) ==> self.step(event) == self,
    {
        let descriptor = self.descriptor;
        if descriptor.is_complete() {
            Self::lemma_complete_adds_up(descriptor);
        }
        match (self.stage, event) {
            (StageView::Transferring { attempt }, EventView::PartTransferred(result)) => {
                match result {
                    Ok(tokens) => {
                        descriptor.lemma_with_success(tokens);
                    },
                    Err(_) => {},
                }
            },
            _ => {},
        }
    }

    /// The part that a transfer asks for is always the one after the last
    /// completed part, as the plan cuts it, and a try at it has a number
    /// from 1 to [`MAX_ATTEMPTS`].
    pub proof fn lemma_pending_part(self)
        requires
            self.wf(),
        ensures
            self.pending() matches ActionView::TransferPart { part, attempt } ==> {
                &&& part.number == self.descriptor.last_completed_part + 1
                &&& part.number <= self.descriptor.part_count
                &&& Some(part) == self.descriptor.next_part()
                &&& part.offset == self.descriptor.completed_bytes()
                &&& part.offset + part.length <= self.descriptor.object_size
                &&& 1 <= attempt <= MAX_ATTEMPTS
            },
    {
        if self.stage is Transferring {
            let plan = self.descriptor.plan();
            let number = (self.descriptor.last_completed_part + 1) as nat;
            plan.lemma_part_bounds(number);
            plan.lemma_covered(self.descriptor.last_completed_part as nat);
        }
    }
}

} // verus!
