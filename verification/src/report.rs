//! The texts that leave the crate: the range header of a ranged request,
//! and what the operator is told when a transfer has ended.

use vstd::prelude::*;
use vstd::string::StringExecFns;
use crate::part::ByteRange;
use crate::signal::Outcome;
use crate::signal::OutcomeView;
use crate::text::decimal;
use crate::text::push_decimal;

verus! {

/// The value of the range header that asks for `range`.
pub open spec fn range_header_text(range: ByteRange) -> Seq<char> {
    "bytes="@ + decimal(range.first as nat) + "-"@ + decimal(range.last as nat)
}

/// The command line that takes a transfer up again from `state_file`.
pub open spec fn resume_invocation_text(upload: bool, state_file: Seq<char>) -> Seq<char> {
    if upload {
        "persevere resume --state-file '"@ + state_file + "'"@
    } else {
        "persevere download resume --state-file '"@ + state_file + "'"@
    }
}

/// What the operator is told about how the transfer ended.
pub open spec fn notice_text(outcome: OutcomeView, upload: bool, state_file: Seq<char>) -> Seq<
    char,
> {
    match outcome {
        OutcomeView::Completed => "The transfer is complete."@,
        OutcomeView::Aborted => "The transfer was aborted and its state-file removed."@,
        OutcomeView::FailedRetryable(cause) => "Retryable error: "@ + cause
            + ". The transfer was not aborted, to allow resuming. To resume it, run the following command: "@
            + resume_invocation_text(upload, state_file),
        OutcomeView::FailedUnrecoverable(cause) => {
            if upload {
                "Unrecoverable error: "@ + cause
                    + ". The transfer cannot be resumed. The upload has been cancelled at the service, or should be."@
            } else {
                "Unrecoverable error: "@ + cause + ". The transfer cannot be resumed."@
            }
        },
    }
}

/// The value of the range header that asks for `range`: the word `bytes`,
/// an equals sign, and the two bounds in decimal with a hyphen between
/// them.
pub fn range_header(range: &ByteRange) -> (header: String)
    ensures
        header@ == range_header_text(*range),
{
    let mut header = String::from_str("bytes=");
    push_decimal(&mut header, range.first);
    header.append("-");
    push_decimal(&mut header, range.last);
    header
}

/// The command line that takes a transfer up again from `state_file`.
pub fn resume_invocation(upload: bool, state_file: &str) -> (command: String)
    ensures
        command@ == resume_invocation_text(upload, state_file@),
{
    let mut command = if upload {
        String::from_str("persevere resume --state-file '")
    } else {
        String::from_str("persevere download resume --state-file '")
    };
    command.append(state_file);
    command.append("'");
    command
}

/// What the operator is told about how the transfer ended. A failure that
/// can be resumed comes with the exact command that resumes it; a failure
/// that cannot says so, and for an upload that the upload is cancelled or
/// has to be.
pub fn notice(outcome: &Outcome, upload: bool, state_file: &str) -> (text: String)
    ensures
        text@ == notice_text(outcome@, upload, state_file@),
{
    match outcome {
        Outcome::Completed => String::from_str("The transfer is complete."),
        Outcome::Aborted => String::from_str(
            "The transfer was aborted and its state-file removed.",
        ),
        Outcome::FailedRetryable(cause) => {
            let mut text = String::from_str("Retryable error: ");
            text.append(cause.as_str());
            text.append(
                ". The transfer was not aborted, to allow resuming. To resume it, run the following command: ",
            );
            let command = resume_invocation(upload, state_file);
            text.append(command.as_str());
            assert(text@ =~= notice_text(outcome@, upload, state_file@));
            text
        },
        Outcome::FailedUnrecoverable(cause) => {
            let mut text = String::from_str("Unrecoverable error: ");
            text.append(cause.as_str());
            if upload {
                text.append(
                    ". The transfer cannot be resumed. The upload has been cancelled at the service, or should be.",
                );
            } else {
                text.append(". The transfer cannot be resumed.");
            }
            text
        },
    }
}

} // verus!
