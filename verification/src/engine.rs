//! The engine: one transfer, driven step by step.
//!
//! The engine owns the descriptor of its transfer. It names the action that
//! is due, takes the event that reports on it, and moves on. The driver
//! carries the actions out; it decides nothing.

use vstd::prelude::*;
use vstd::string::StringExecFns;
use crate::descriptor::Descriptor;
use crate::failure::Error;
use crate::failure::ErrorView;
use crate::machine::too_many_parts_cause;
use crate::machine::StageView;
use crate::machine::TransferView;
use crate::retry::decide;
use crate::retry::AttemptOutcome;
use crate::retry::Decision;
use crate::signal::Action;
use crate::signal::DeleteOutcome;
use crate::signal::Event;
use crate::signal::Outcome;

verus! {

/// Where a transfer stands: what it is waiting for.
#[derive(Debug, PartialEq, Eq)]
pub enum Stage {
    /// The descriptor is being written to the state file.
    Persisting,
    /// Try number `attempt` at the part that is due is under way.
    Transferring { attempt: u64 },
    /// The part that is due has failed at its last try; the descriptor is
    /// being written to the state file before the transfer stops.
    Exhausted { cause: String },
    /// The service is completing the upload.
    Completing,
    /// The transfer is complete; its state file is being deleted.
    Cleaning,
    /// The upload has failed for good; the service is cancelling it.
    Cancelling { cause: String },
    /// The upload is called off; the service is cancelling it.
    Aborting,
    /// The transfer is called off; its state file is being deleted.
    AbortCleaning,
    /// The transfer has ended.
    Finished(Outcome),
}

impl View for Stage {
    type V = StageView;

    open spec fn view(&self) -> StageView {
        match self {
            Stage::Persisting => StageView::Persisting,
            Stage::Transferring { attempt } => StageView::Transferring { attempt: *attempt as nat },
            Stage::Exhausted { cause } => StageView::Exhausted { cause: cause@ },
            Stage::Completing => StageView::Completing,
            Stage::Cleaning => StageView::Cleaning,
            Stage::Cancelling { cause } => StageView::Cancelling { cause: cause@ },
            Stage::Aborting => StageView::Aborting,
            Stage::AbortCleaning => StageView::AbortCleaning,
            Stage::Finished(outcome) => StageView::Finished(outcome@),
        }
    }
}

/// The cause given when a descriptor does not keep the rules of its kind.
pub open spec fn inconsistent_descriptor_cause() -> Seq<char> {
    "The state of the transfer is inconsistent; the state file may have been edited or damaged"@
}

/// One transfer in flight. It holds the only descriptor of the transfer
/// that may be written to the state file.
#[derive(Debug)]
pub struct Transfer {
    descriptor: Descriptor,
    stage: Stage,
}

impl View for Transfer {
    type V = TransferView;

    closed spec fn view(&self) -> TransferView {
        TransferView { descriptor: self.descriptor@, stage: self.stage@ }
    }
}

impl Transfer {
    #[verifier::type_invariant]
    spec fn inv(self) -> bool {
        self@.wf()
    }

    fn failed(descriptor: Descriptor, cause: String) -> (transfer: Transfer)
        requires
            descriptor@.wf(),
        ensures
            transfer@ == TransferView::failed(descriptor@, cause@),
    {
        if descriptor.is_upload() {
            Transfer { descriptor, stage: Stage::Cancelling { cause } }
        } else {
            Transfer { descriptor, stage: Stage::Finished(Outcome::FailedUnrecoverable(cause)) }
        }
    }

    fn advanced(descriptor: Descriptor) -> (transfer: Transfer)
        requires
            descriptor@.wf(),
        ensures
            transfer@ == TransferView::advanced(descriptor@),
    {
        proof {
            TransferView::lemma_begin_wf(descriptor@, 0);
        }
        if !descriptor.is_complete() {
            Transfer { descriptor, stage: Stage::Transferring { attempt: 1 } }
        } else if descriptor.completed_bytes() != descriptor.object_size {
            Self::failed(
                descriptor,
                String::from_str(
                    "Every part was transferred, but the parts do not add up to the size of the object",
                ),
            )
        } else if descriptor.is_upload() {
            Transfer { descriptor, stage: Stage::Completing }
        } else {
            Transfer { descriptor, stage: Stage::Cleaning }
        }
    }

    fn refused() -> (error: Error)
        ensures
            error@ == ErrorView::Unrecoverable(inconsistent_descriptor_cause()),
    {
        Error::Unrecoverable(
            String::from_str(
                "The state of the transfer is inconsistent; the state file may have been edited or damaged",
            ),
        )
    }

    fn too_many_parts() -> (cause: String)
        ensures
            cause@ == too_many_parts_cause(),
    {
        String::from_str(
            "The number of parts exceeds the maximum number of parts allowed by the service",
        )
    }

    /// Starts the transfer that `descriptor` describes. The first action is
    /// to write the descriptor to the state file.
    ///
    /// A descriptor that does not keep its rules is refused. An upload with
    /// more than `max_part_count` parts fails for good, and its first
    /// action is to cancel the upload at the service.
    pub fn start(descriptor: Descriptor, max_part_count: u64) -> (begun: Result<Transfer, Error>)
        ensures
            descriptor@.wf() ==> (begun matches Ok(transfer) && transfer@ == TransferView::started(
                descriptor@,
                max_part_count,
            )),
            !descriptor@.wf() ==> (begun matches Err(error) && error@ == ErrorView::Unrecoverable(
                inconsistent_descriptor_cause(),
            )),
    {
        if !descriptor.is_consistent() {
            return Err(Self::refused());
        }
        if descriptor.is_upload() && descriptor.part_count > max_part_count {
            Ok(Self::failed(descriptor, Self::too_many_parts()))
        } else {
            Ok(Transfer { descriptor, stage: Stage::Persisting })
        }
    }

    /// Takes up the transfer that `descriptor` records. The parts that the
    /// descriptor records as done are not transferred again: the first
    /// action is a try at the part after them or, when every part is done,
    /// the first action of finalizing.
    ///
    /// A descriptor that does not keep its rules is refused. An upload with
    /// more than `max_part_count` parts fails for good, and its first
    /// action is to cancel the upload at the service.
    pub fn resume(descriptor: Descriptor, max_part_count: u64) -> (begun: Result<Transfer, Error>)
        ensures
            descriptor@.wf() ==> (begun matches Ok(transfer) && transfer@ == TransferView::resumed(
                descriptor@,
                max_part_count,
            )),
            !descriptor@.wf() ==> (begun matches Err(error) && error@ == ErrorView::Unrecoverable(
                inconsistent_descriptor_cause(),
            )),
    {
        if !descriptor.is_consistent() {
            return Err(Self::refused());
        }
        if descriptor.is_upload() && descriptor.part_count > max_part_count {
            Ok(Self::failed(descriptor, Self::too_many_parts()))
        } else {
            Ok(Self::advanced(descriptor))
        }
    }

    /// Calls off the transfer that `descriptor` records, however many of
    /// its parts are done. An upload is cancelled at the service first;
    /// then the state file is deleted.
    ///
    /// A descriptor that does not keep its rules is refused.
    pub fn abort(descriptor: Descriptor) -> (begun: Result<Transfer, Error>)
        ensures
            descriptor@.wf() ==> (begun matches Ok(transfer) && transfer@
                == TransferView::called_off(descriptor@)),
            !descriptor@.wf() ==> (begun matches Err(error) && error@ == ErrorView::Unrecoverable(
                inconsistent_descriptor_cause(),
            )),
    {
        if !descriptor.is_consistent() {
            return Err(Self::refused());
        }
        if descriptor.is_upload() {
            Ok(Transfer { descriptor, stage: Stage::Aborting })
        } else {
            Ok(Transfer { descriptor, stage: Stage::AbortCleaning })
        }
    }

    /// The descriptor of the transfer, as it is to be written to the state
    /// file.
    pub fn descriptor(&self) -> (descriptor: &Descriptor)
        ensures
            descriptor@ == self@.descriptor,
            descriptor@.wf(),
    {
        proof {
            use_type_invariant(self);
        }
        &self.descriptor
    }

    /// The stage that the transfer is in.
    pub fn stage(&self) -> (stage: &Stage)
        ensures
            stage@ == self@.stage,
    {
        &self.stage
    }

    /// How the transfer ended, if it has.
    pub fn outcome(&self) -> (outcome: Option<Outcome>)
        ensures
            match outcome {
                Some(ended) => self@.stage == StageView::Finished(ended@),
                None => !(self@.stage is Finished),
            },
    {
        match &self.stage {
            Stage::Finished(outcome) => Some(outcome.duplicate()),
            _ => None,
        }
    }

    /// The action that the transfer is waiting for.
    pub fn pending(&self) -> (action: Action)
        ensures
            action@ == self@.pending(),
            self@.wf(),
    {
        proof {
            use_type_invariant(self);
        }
        match &self.stage {
            Stage::Persisting => Action::Persist,
            Stage::Transferring { attempt } => {
                let part = self.descriptor.plan().part(self.descriptor.last_completed_part + 1);
                Action::TransferPart { part, attempt: *attempt }
            },
            Stage::Exhausted { .. } => Action::Persist,
            Stage::Completing => Action::CompleteRemote,
            Stage::Cleaning => Action::DeleteState,
            Stage::Cancelling { .. } => Action::AbortRemote,
            Stage::Aborting => Action::AbortRemote,
            Stage::AbortCleaning => Action::DeleteState,
            Stage::Finished(outcome) => Action::Finish(outcome.duplicate()),
        }
    }

    /// Moves the transfer on by `event`, the report on the pending action.
    /// An event that reports on another action changes nothing.
    pub fn step(self, event: Event) -> (next: Transfer)
        ensures
            next@ == self@.step(event@),
            self@.wf(),
            next@.wf(),
    {
        proof {
            use_type_invariant(&self);
            self@.lemma_step(event@);
        }
        let Transfer { descriptor, stage } = self;
        match (stage, event) {
            (Stage::Transferring { attempt }, Event::PartTransferred(result)) => {
                match decide(attempt, result) {
                    Decision::Finished(AttemptOutcome::Success(tokens)) => {
                        let mut descriptor = descriptor;
                        descriptor.record_success(tokens);
                        Transfer { descriptor, stage: Stage::Persisting }
                    },
                    Decision::Retry { attempt, cause: _ } => Transfer {
                        descriptor,
                        stage: Stage::Transferring { attempt },
                    },
                    Decision::Finished(AttemptOutcome::ExhaustedRetryable(cause)) => Transfer {
                        descriptor,
                        stage: Stage::Exhausted { cause },
                    },
                    Decision::Finished(AttemptOutcome::Unrecoverable(cause)) => Self::failed(
                        descriptor,
                        cause,
                    ),
                }
            },
            (Stage::Persisting, Event::Persisted(Ok(_))) => Self::advanced(descriptor),
            (Stage::Persisting, Event::Persisted(Err(cause))) => Self::failed(descriptor, cause),
            (Stage::Exhausted { cause }, Event::Persisted(Ok(_))) => Transfer {
                descriptor,
                stage: Stage::Finished(Outcome::FailedRetryable(cause)),
            },
            (Stage::Exhausted { cause: _ }, Event::Persisted(Err(cause))) => Self::failed(
                descriptor,
                cause,
            ),
            (Stage::Completing, Event::RemoteCompleted(Ok(_))) => Transfer {
                descriptor,
                stage: Stage::Cleaning,
            },
            (Stage::Completing, Event::RemoteCompleted(Err(cause))) => Transfer {
                descriptor,
                stage: Stage::Finished(Outcome::FailedRetryable(cause)),
            },
            (Stage::Cleaning, Event::StateDeleted(DeleteOutcome::Failed(cause))) => Transfer {
                descriptor,
                stage: Stage::Finished(Outcome::FailedUnrecoverable(cause)),
            },
            (Stage::Cleaning, Event::StateDeleted(_)) => Transfer {
                descriptor,
                stage: Stage::Finished(Outcome::Completed),
            },
            (Stage::Cancelling { cause }, Event::RemoteAborted(_)) => Transfer {
                descriptor,
                stage: Stage::Finished(Outcome::FailedUnrecoverable(cause)),
            },
            (Stage::Aborting, Event::RemoteAborted(Ok(_))) => Transfer {
                descriptor,
                stage: Stage::AbortCleaning,
            },
            (Stage::Aborting, Event::RemoteAborted(Err(cause))) => Transfer {
                descriptor,
                stage: Stage::Finished(Outcome::FailedRetryable(cause)),
            },
            (Stage::AbortCleaning, Event::StateDeleted(DeleteOutcome::Failed(cause))) => Transfer {
                descriptor,
                stage: Stage::Finished(Outcome::FailedUnrecoverable(cause)),
            },
            (Stage::AbortCleaning, Event::StateDeleted(_)) => Transfer {
                descriptor,
                stage: Stage::Finished(Outcome::Aborted),
            },
            (stage, _) => Transfer { descriptor, stage },
        }
    }
}

} // verus!
