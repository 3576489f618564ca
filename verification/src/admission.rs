//! What is tested before a transfer starts or is taken up again, and the
//! words in which a refusal is given.

use vstd::prelude::*;
use vstd::string::StringExecFns;
use crate::descriptor::Descriptor;
use crate::descriptor::DescriptorView;
use crate::failure::Error;
use crate::failure::ErrorView;
use crate::limits::ServiceLimits;
use crate::plan::plan_for;
use crate::plan::plan_transfer;
use crate::plan::Plan;
use crate::plan::PlanError;
use crate::text::decimal;
use crate::text::push_decimal;

verus! {

/// The cause given when a transfer is to start over a state file that is
/// already there.
pub open spec fn state_file_exists_cause() -> Seq<char> {
    "The state-file already exists, and we don't allow starting a new transfer against the same file. If you want to resume the transfer, use the 'resume' command instead. If you want to start a new transfer, please remove the state-file first, or use a different one."@
}

/// The cause given when a download is to start over a file that is
/// already there.
pub open spec fn output_exists_cause() -> Seq<char> {
    "The output file already exists. We don't allow overwriting existing files."@
}

/// A plan's refusal in words, with the limit that was broken where there
/// is one to name.
pub open spec fn plan_error_cause(reason: PlanError, limits: ServiceLimits) -> Seq<char> {
    match reason {
        PlanError::ObjectTooSmall =>
            "The object is too small for a transfer in parts; it must have at least "@ + decimal(
                limits.min_object_size as nat,
            ) + " bytes"@,
        PlanError::ObjectTooLarge =>
            "The object exceeds the maximum object size of the service, which is "@ + decimal(
                limits.max_object_size as nat,
            ) + " bytes"@,
        PlanError::PartSizeTooSmall => "The part size is too small, it must be at least "@
            + decimal(limits.min_part_size as nat) + " bytes"@,
        PlanError::PartSizeTooLarge => "The part size is too large, it must be at most "@
            + decimal(limits.max_part_size as nat) + " bytes"@,
        PlanError::TooManyParts =>
            "The number of parts exceeds the maximum number of parts allowed by the service, which is "@
                + decimal(limits.max_part_count as nat),
        PlanError::PartSizeBeyondLimit =>
            "The part size exceeds the maximum part size allowed by the service, which is "@
                + decimal(limits.max_part_size as nat) + " bytes"@,
    }
}

/// The cause given when the source of a transfer no longer has the size
/// that the descriptor records.
pub open spec fn size_changed_cause(descriptor: DescriptorView, current_size: u64) -> Seq<char> {
    let found = "The source has changed since the transfer began. Its size was "@ + decimal(
        descriptor.object_size as nat,
    ) + " bytes, but is now "@ + decimal(current_size as nat)
        + " bytes. The transfer cannot be resumed, and should be aborted!"@;
    match descriptor.transfer_handle {
        Some(handle) => found + " Upload ID: "@ + handle,
        None => found,
    }
}

/// A new transfer may not start over the state file of another: it would
/// wipe out the record of that transfer's progress.
pub fn check_no_state_file(state_file_exists: bool) -> (checked: Result<(), Error>)
    ensures
        !state_file_exists ==> checked is Ok,
        state_file_exists ==> (checked matches Err(error) && error@ == ErrorView::Unrecoverable(
            state_file_exists_cause(),
        )),
{
    if state_file_exists {
        Err(
            Error::Unrecoverable(
                String::from_str(
                    "The state-file already exists, and we don't allow starting a new transfer against the same file. If you want to resume the transfer, use the 'resume' command instead. If you want to start a new transfer, please remove the state-file first, or use a different one.",
                ),
            ),
        )
    } else {
        Ok(())
    }
}

/// A download may not start over a file that is already there.
pub fn check_no_output(output_exists: bool) -> (checked: Result<(), Error>)
    ensures
        !output_exists ==> checked is Ok,
        output_exists ==> (checked matches Err(error) && error@ == ErrorView::Unrecoverable(
            output_exists_cause(),
        )),
{
    if output_exists {
        Err(
            Error::Unrecoverable(
                String::from_str(
                    "The output file already exists. We don't allow overwriting existing files.",
                ),
            ),
        )
    } else {
        Ok(())
    }
}

/// A transfer may be taken up again only while its source has the size
/// that the descriptor records.
pub fn check_size_unchanged(descriptor: &Descriptor, current_size: u64) -> (checked: Result<
    (),
    Error,
>)
    ensures
        current_size == descriptor.object_size ==> checked is Ok,
        current_size != descriptor.object_size ==> (checked matches Err(error) && error@
            == ErrorView::Unrecoverable(size_changed_cause(descriptor@, current_size))),
{
    if current_size == descriptor.object_size {
        return Ok(());
    }
    let mut cause = String::from_str(
        "The source has changed since the transfer began. Its size was ",
    );
    push_decimal(&mut cause, descriptor.object_size);
    cause.append(" bytes, but is now ");
    push_decimal(&mut cause, current_size);
    cause.append(" bytes. The transfer cannot be resumed, and should be aborted!");
    match &descriptor.transfer_handle {
        Some(handle) => {
            cause.append(" Upload ID: ");
            cause.append(handle.as_str());
        },
        None => {},
    }
    Err(Error::Unrecoverable(cause))
}

/// A plan's refusal as the failure that the operator gets: it is beyond
/// mending, and says which limit was broken.
pub fn plan_failure(reason: PlanError, limits: &ServiceLimits) -> (error: Error)
    ensures
        error@ == ErrorView::Unrecoverable(plan_error_cause(reason, *limits)),
{
    let cause = match reason {
        PlanError::ObjectTooSmall => {
            let mut cause = String::from_str(
                "The object is too small for a transfer in parts; it must have at least ",
            );
            push_decimal(&mut cause, limits.min_object_size);
            cause.append(" bytes");
            cause
        },
        PlanError::ObjectTooLarge => {
            let mut cause = String::from_str(
                "The object exceeds the maximum object size of the service, which is ",
            );
            push_decimal(&mut cause, limits.max_object_size);
            cause.append(" bytes");
            cause
        },
        PlanError::PartSizeTooSmall => {
            let mut cause = String::from_str("The part size is too small, it must be at least ");
            push_decimal(&mut cause, limits.min_part_size);
            cause.append(" bytes");
            cause
        },
        PlanError::PartSizeTooLarge => {
            let mut cause = String::from_str("The part size is too large, it must be at most ");
            push_decimal(&mut cause, limits.max_part_size);
            cause.append(" bytes");
            cause
        },
        PlanError::TooManyParts => {
            let mut cause = String::from_str(
                "The number of parts exceeds the maximum number of parts allowed by the service, which is ",
            );
            push_decimal(&mut cause, limits.max_part_count);
            cause
        },
        PlanError::PartSizeBeyondLimit => {
            let mut cause = String::from_str(
                "The part size exceeds the maximum part size allowed by the service, which is ",
            );
            push_decimal(&mut cause, limits.max_part_size);
            cause.append(" bytes");
            cause
        },
    };
    Error::Unrecoverable(cause)
}

/// Plans the transfer of an object, as [`plan_transfer`] does, and gives a
/// refusal as the failure that the operator gets.
pub fn plan_or_fail(object_size: u64, requested: Option<u64>, limits: &ServiceLimits) -> (planned:
    Result<Plan, Error>)
    requires
        limits.wf(),
    ensures
        match plan_for(object_size, requested, *limits) {
            Ok(plan) => planned == Ok::<Plan, Error>(plan) && plan.wf(),
            Err(reason) => planned matches Err(error) && error@ == ErrorView::Unrecoverable(
                plan_error_cause(reason, *limits),
            ),
        },
{
    match plan_transfer(object_size, requested, limits) {
        Ok(plan) => Ok(plan),
        Err(reason) => Err(plan_failure(reason, limits)),
    }
}

} // verus!
