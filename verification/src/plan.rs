//! The transfer plan: the part size and part count for an object, chosen
//! within the limits of the service.
//!
//! Uploads and downloads size their parts here and nowhere else.

use vstd::prelude::*;
use crate::arith::ceil_div;
use crate::arith::div_ceil;
use crate::arith::lemma_ceil_div_bounds;
use crate::arith::lemma_ceil_div_within;
use crate::limits::ServiceLimits;

verus! {

/// Why no plan can be made.
#[derive(Clone, Copy, Debug, PartialEq, Eq)]
pub enum PlanError {
    /// The object is smaller than the smallest object moved in parts.
    ObjectTooSmall,
    /// The object is larger than the largest object the service stores.
    ObjectTooLarge,
    /// The requested part size is below the smallest the service accepts.
    PartSizeTooSmall,
    /// The requested part size is above the largest the service accepts.
    PartSizeTooLarge,
    /// The object would need more parts than one transfer may have.
    TooManyParts,
    /// The object is so large that parts small enough in number would each be
    /// above the largest part size.
    PartSizeBeyondLimit,
}

/// How an object is cut into parts.
#[derive(Clone, Copy, Debug, PartialEq, Eq)]
pub struct Plan {
    /// The size of the whole object, in bytes.
    pub object_size: u64,
    /// The size of every part but the last, in bytes.
    pub part_size: u64,
    /// The number of parts.
    pub part_count: u64,
}

impl Plan {
    /// The object is not empty, a part has at least one byte, and there are
    /// exactly as many parts as cover the object.
    pub open spec fn wf(self) -> bool {
        &&& self.object_size >= 1
        &&& self.part_size >= 1
        &&& self.part_count == ceil_div(self.object_size as nat, self.part_size as nat)
    }
}

/// The part size used when none is requested: the smallest one the service
/// accepts, raised as far as needed to keep the part count within the limit.
pub open spec fn default_part_size(object_size: u64, limits: ServiceLimits) -> nat {
    let needed = ceil_div(object_size as nat, limits.max_part_count as nat);
    if needed > limits.min_part_size {
        needed
    } else {
        limits.min_part_size as nat
    }
}

/// The part size of a transfer, or the reason why the object or the requested
/// part size is refused.
pub open spec fn part_size_for(
    object_size: u64,
    requested: Option<u64>,
    limits: ServiceLimits,
) -> Result<u64, PlanError> {
    if object_size < limits.min_object_size {
        Err(PlanError::ObjectTooSmall)
    } else if object_size > limits.max_object_size {
        Err(PlanError::ObjectTooLarge)
    } else {
        match requested {
            Some(part_size) => {
                if part_size < limits.min_part_size {
                    Err(PlanError::PartSizeTooSmall)
                } else if part_size > limits.max_part_size {
                    Err(PlanError::PartSizeTooLarge)
                } else if ceil_div(object_size as nat, part_size as nat)
                    > limits.max_part_count {
                    Err(PlanError::TooManyParts)
                } else {
                    Ok(part_size)
                }
            },
            None => {
                let part_size = default_part_size(object_size, limits);
                if part_size > limits.max_part_size {
                    Err(PlanError::PartSizeBeyondLimit)
                } else {
                    Ok(part_size as u64)
                }
            },
        }
    }
}

/// The plan for an object: its part size, and the part count that follows
/// from it, checked once more against the limit.
pub open spec fn plan_for(
    object_size: u64,
    requested: Option<u64>,
    limits: ServiceLimits,
) -> Result<Plan, PlanError> {
    match part_size_for(object_size, requested, limits) {
        Err(reason) => Err(reason),
        Ok(part_size) => {
            let part_count = ceil_div(object_size as nat, part_size as nat);
            if part_count > limits.max_part_count {
                Err(PlanError::TooManyParts)
            } else {
                Ok(Plan { object_size, part_size, part_count: part_count as u64 })
            }
        },
    }
}

/// Every plan that is made respects the limits it was made within: the part
/// count is the object size over the part size, rounded up, and at most the
/// largest count allowed; the part size lies in the accepted range, whether
/// it was requested or chosen.
pub proof fn lemma_plan_within_limits(
    object_size: u64,
    requested: Option<u64>,
    limits: ServiceLimits,
)
    requires
        limits.wf(),
    ensures
        match plan_for(object_size, requested, limits) {
            Ok(plan) => {
                &&& plan.wf()
                &&& plan.object_size == object_size
                &&& limits.min_object_size <= object_size <= limits.max_object_size
                &&& plan.part_count == ceil_div(object_size as nat, plan.part_size as nat)
                &&& 1 <= plan.part_count <= limits.max_part_count
                &&& limits.min_part_size <= plan.part_size <= limits.max_part_size
                &&& requested matches Some(part_size) ==> plan.part_size == part_size
                &&& requested is None ==> plan.part_size == default_part_size(
                    object_size,
                    limits,
                )
            },
            Err(_) => true,
        },
{
    if let Ok(part_size) = part_size_for(object_size, requested, limits) {
        lemma_ceil_div_bounds(object_size as nat, part_size as nat);
    }
}

/// Without a requested part size, the part count never stands in the way:
/// the chosen part size keeps it within the limit, so a plan is refused only
/// for the object's size or for a part size above the largest accepted.
pub proof fn lemma_default_part_size_fits(object_size: u64, limits: ServiceLimits)
    requires
        limits.wf(),
    ensures
        ceil_div(object_size as nat, default_part_size(object_size, limits))
            <= limits.max_part_count,
        plan_for(object_size, None, limits) != Err::<Plan, PlanError>(PlanError::TooManyParts),
        default_part_size(object_size, limits) >= limits.min_part_size,
        default_part_size(object_size, limits) <= u64::MAX,
{
    let needed = ceil_div(object_size as nat, limits.max_part_count as nat);
    lemma_ceil_div_bounds(object_size as nat, limits.max_part_count as nat);
    assert(needed <= object_size) by {
        if object_size > 0 {
            assert((needed - 1) * limits.max_part_count >= needed - 1) by (nonlinear_arith)
                requires
                    needed >= 1,
                    limits.max_part_count >= 1,
            ;
        }
    }
    lemma_ceil_div_within(
        object_size as nat,
        limits.max_part_count as nat,
        default_part_size(object_size, limits),
    );
}

/// Plans the transfer of an object of `object_size` bytes.
///
/// With a `requested` part size, that size is used if the service accepts it
/// and the object then needs no more parts than allowed. Without one, the
/// smallest part size is chosen that the service accepts and that keeps the
/// part count within the limit.
pub fn plan_transfer(object_size: u64, requested: Option<u64>, limits: &ServiceLimits) -> (plan:
    Result<Plan, PlanError>)
    requires
        limits.wf(),
    ensures
        plan == plan_for(object_size, requested, *limits),
        plan matches Ok(p) ==> {
            &&& p.wf()
            &&& p.object_size == object_size
            &&& 1 <= p.part_count <= limits.max_part_count
            &&& limits.min_part_size <= p.part_size <= limits.max_part_size
        },
{
    proof {
        lemma_plan_within_limits(object_size, requested, *limits);
        lemma_default_part_size_fits(object_size, *limits);
    }
    if object_size < limits.min_object_size {
        return Err(PlanError::ObjectTooSmall);
    } else if object_size > limits.max_object_size {
        return Err(PlanError::ObjectTooLarge);
    }
    let part_size: u64 = match requested {
        Some(part_size) => {
            if part_size < limits.min_part_size {
                return Err(PlanError::PartSizeTooSmall);
            } else if part_size > limits.max_part_size {
                return Err(PlanError::PartSizeTooLarge);
            }
            if div_ceil(object_size, part_size) > limits.max_part_count {
                return Err(PlanError::TooManyParts);
            }
            part_size
        },
        None => {
            let needed: u64 = div_ceil(object_size, limits.max_part_count);
            let part_size: u64 = if needed > limits.min_part_size {
                needed
            } else {
                limits.min_part_size
            };
            if part_size > limits.max_part_size {
                return Err(PlanError::PartSizeBeyondLimit);
            }
            part_size
        },
    };
    let part_count: u64 = div_ceil(object_size, part_size);
    if part_count > limits.max_part_count {
        return Err(PlanError::TooManyParts);
    }
    Ok(Plan { object_size, part_size, part_count })
}

} // verus!
