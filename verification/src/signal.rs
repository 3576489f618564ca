//! What passes between the engine and its driver: the actions that the
//! engine asks for, the events that the driver reports back, and the
//! outcome that a transfer ends in.

use vstd::prelude::*;
use crate::descriptor::IntegrityTokens;
use crate::descriptor::IntegrityTokensView;
use crate::failure::Error;
use crate::failure::ErrorView;
use crate::part::Part;

verus! {

/// How a transfer ended.
#[derive(Clone, Debug, PartialEq, Eq)]
pub enum Outcome {
    /// Every part was transferred, the transfer was finalized and its state
    /// file is gone.
    Completed,
    /// The transfer was called off and its state file is gone.
    Aborted,
    /// The transfer failed, and can be taken up again from its state file.
    FailedRetryable(String),
    /// The transfer failed for good. Nothing can be taken up again.
    FailedUnrecoverable(String),
}

/// An [`Outcome`] as a value of mathematics.
pub enum OutcomeView {
    Completed,
    Aborted,
    FailedRetryable(Seq<char>),
    FailedUnrecoverable(Seq<char>),
}

impl View for Outcome {
    type V = OutcomeView;

    open spec fn view(&self) -> OutcomeView {
        match self {
            Outcome::Completed => OutcomeView::Completed,
            Outcome::Aborted => OutcomeView::Aborted,
            Outcome::FailedRetryable(cause) => OutcomeView::FailedRetryable(cause@),
            Outcome::FailedUnrecoverable(cause) => OutcomeView::FailedUnrecoverable(cause@),
        }
    }
}

/// The exit status of a process whose transfer succeeded.
pub const EXIT_SUCCESS: u8 = 0;

/// The exit status of a process whose transfer failed for good.
pub const EXIT_UNRECOVERABLE: u8 = 1;

/// The exit status of a process whose transfer failed and can be resumed.
pub const EXIT_RESUMABLE: u8 = 75;

impl OutcomeView {
    /// Whether the transfer did what it was asked to do.
    pub open spec fn succeeded(self) -> bool {
        self is Completed || self is Aborted
    }

    /// Whether the transfer can be taken up again from its state file.
    pub open spec fn resumable(self) -> bool {
        self is FailedRetryable
    }

    /// The exit status that tells a script how the transfer ended.
    pub open spec fn exit_status(self) -> u8 {
        match self {
            OutcomeView::Completed => EXIT_SUCCESS,
            OutcomeView::Aborted => EXIT_SUCCESS,
            OutcomeView::FailedRetryable(_) => EXIT_RESUMABLE,
            OutcomeView::FailedUnrecoverable(_) => EXIT_UNRECOVERABLE,
        }
    }
}

impl Outcome {
    /// The exit status that tells a script how the transfer ended: one
    /// status for success, one for a failure that can be resumed, and one
    /// for a failure that cannot.
    pub fn exit_status(&self) -> (status: u8)
        ensures
            status == self@.exit_status(),
            status == EXIT_SUCCESS <==> self@.succeeded(),
            status == EXIT_RESUMABLE <==> self@.resumable(),
            status == EXIT_UNRECOVERABLE <==> self@ is FailedUnrecoverable,
    {
        match self {
            Outcome::Completed => EXIT_SUCCESS,
            Outcome::Aborted => EXIT_SUCCESS,
            Outcome::FailedRetryable(_) => EXIT_RESUMABLE,
            Outcome::FailedUnrecoverable(_) => EXIT_UNRECOVERABLE,
        }
    }

    /// A copy of the outcome.
    pub fn duplicate(&self) -> (copy: Outcome)
        ensures
            copy@ == self@,
    {
        match self {
            Outcome::Completed => Outcome::Completed,
            Outcome::Aborted => Outcome::Aborted,
            Outcome::FailedRetryable(cause) => Outcome::FailedRetryable(cause.clone()),
            Outcome::FailedUnrecoverable(cause) => Outcome::FailedUnrecoverable(cause.clone()),
        }
    }

    /// The outcome as the failure that the caller of the transfer gets, or
    /// nothing where the transfer succeeded.
    pub fn into_result(self) -> (result: Result<(), Error>)
        ensures
            match self@ {
                OutcomeView::Completed => result is Ok,
                OutcomeView::Aborted => result is Ok,
                OutcomeView::FailedRetryable(cause) => result matches Err(error) && error@
                    == ErrorView::Retryable(cause),
                OutcomeView::FailedUnrecoverable(cause) => result matches Err(error) && error@
                    == ErrorView::Unrecoverable(cause),
            },
    {
        match self {
            Outcome::Completed => Ok(()),
            Outcome::Aborted => Ok(()),
            Outcome::FailedRetryable(cause) => Err(Error::Retryable(cause)),
            Outcome::FailedUnrecoverable(cause) => Err(Error::Unrecoverable(cause)),
        }
    }
}

/// What came of deleting the state file.
#[derive(Clone, Debug, PartialEq, Eq)]
pub enum DeleteOutcome {
    /// The file was there and is gone.
    Deleted,
    /// There was no file to delete.
    NotFound,
    /// The file could not be deleted, for this cause.
    Failed(String),
}

/// A [`DeleteOutcome`] as a value of mathematics.
pub enum DeleteOutcomeView {
    Deleted,
    NotFound,
    Failed(Seq<char>),
}

impl View for DeleteOutcome {
    type V = DeleteOutcomeView;

    open spec fn view(&self) -> DeleteOutcomeView {
        match self {
            DeleteOutcome::Deleted => DeleteOutcomeView::Deleted,
            DeleteOutcome::NotFound => DeleteOutcomeView::NotFound,
            DeleteOutcome::Failed(cause) => DeleteOutcomeView::Failed(cause@),
        }
    }
}

/// What the driver reports to the engine: what came of the action that the
/// engine asked for.
#[derive(Debug, PartialEq, Eq)]
pub enum Event {
    /// One try at transferring the part that is due has ended: for an
    /// upload with the tokens that the service returned, or in a failure of
    /// either kind.
    PartTransferred(Result<IntegrityTokens, Error>),
    /// The descriptor has been written to the state file, or could not be.
    Persisted(Result<(), String>),
    /// The service has completed the upload, or has refused to.
    RemoteCompleted(Result<(), String>),
    /// The service has cancelled the upload, or has refused to.
    RemoteAborted(Result<(), String>),
    /// The state file has been deleted, was not there, or could not be
    /// deleted.
    StateDeleted(DeleteOutcome),
}

/// An [`Event`] as a value of mathematics.
pub enum EventView {
    PartTransferred(Result<IntegrityTokensView, ErrorView>),
    Persisted(Result<(), Seq<char>>),
    RemoteCompleted(Result<(), Seq<char>>),
    RemoteAborted(Result<(), Seq<char>>),
    StateDeleted(DeleteOutcomeView),
}

/// The result of a call that returns nothing, with the cause of its
/// failure, if it is one, as a value of mathematics.
pub open spec fn unit_result_view(result: Result<(), String>) -> Result<(), Seq<char>> {
    match result {
        Ok(_) => Ok(()),
        Err(cause) => Err(cause@),
    }
}

/// The result of one try at a part as a value of mathematics.
pub open spec fn part_result_view(result: Result<IntegrityTokens, Error>) -> Result<
    IntegrityTokensView,
    ErrorView,
> {
    match result {
        Ok(tokens) => Ok(tokens@),
        Err(error) => Err(error@),
    }
}

impl View for Event {
    type V = EventView;

    open spec fn view(&self) -> EventView {
        match self {
            Event::PartTransferred(result) => EventView::PartTransferred(
                part_result_view(*result),
            ),
            Event::Persisted(result) => EventView::Persisted(unit_result_view(*result)),
            Event::RemoteCompleted(result) => EventView::RemoteCompleted(
                unit_result_view(*result),
            ),
            Event::RemoteAborted(result) => EventView::RemoteAborted(unit_result_view(*result)),
            Event::StateDeleted(outcome) => EventView::StateDeleted(outcome@),
        }
    }
}

/// What the engine asks its driver to do next.
#[derive(Clone, Debug, PartialEq, Eq)]
pub enum Action {
    /// Write the descriptor, whole, over the state file.
    Persist,
    /// Transfer this part; it is try number `attempt` at it.
    TransferPart { part: Part, attempt: u64 },
    /// Ask the service to complete the upload, with the receipts that the
    /// descriptor holds, in their order.
    CompleteRemote,
    /// Ask the service to cancel the upload.
    AbortRemote,
    /// Delete the state file; that there is none is no failure.
    DeleteState,
    /// Stop: the transfer has ended in this outcome.
    Finish(Outcome),
}

/// An [`Action`] as a value of mathematics.
pub enum ActionView {
    Persist,
    TransferPart { part: Part, attempt: nat },
    CompleteRemote,
    AbortRemote,
    DeleteState,
    Finish(OutcomeView),
}

impl View for Action {
    type V = ActionView;

    open spec fn view(&self) -> ActionView {
        match self {
            Action::Persist => ActionView::Persist,
            Action::TransferPart { part, attempt } => ActionView::TransferPart {
                part: *part,
                attempt: *attempt as nat,
            },
            Action::CompleteRemote => ActionView::CompleteRemote,
            Action::AbortRemote => ActionView::AbortRemote,
            Action::DeleteState => ActionView::DeleteState,
            Action::Finish(outcome) => ActionView::Finish(outcome@),
        }
    }
}

} // verus!
