//! The limits that the object store sets on a chunked transfer.

use vstd::prelude::*;

verus! {

#[allow(non_upper_case_globals)]
pub const KiB: u64 = 1024;

#[allow(non_upper_case_globals)]
pub const MiB: u64 = 1024 * KiB;

#[allow(non_upper_case_globals)]
pub const GiB: u64 = 1024 * MiB;

#[allow(non_upper_case_globals)]
pub const TiB: u64 = 1024 * GiB;

/// Maximum object size: 5 TiB.
pub const MAXIMUM_OBJECT_SIZE: u64 = 5 * TiB;

/// Maximum number of parts per upload: 10,000.
pub const MAXIMUM_NUMBER_OF_PARTS: u64 = 10_000;

/// Part numbers run from 1 to 10,000 (inclusive).
pub const MINIMUM_PART_NUMBER: u64 = 1;

/// Part numbers run from 1 to 10,000 (inclusive).
pub const MAXIMUM_PART_NUMBER: u64 = 10_000;

/// Minimum part size: 5 MiB. The last part of an upload may be smaller.
pub const MINIMUM_PART_SIZE: u64 = 5 * MiB;

/// Maximum part size: 5 GiB.
pub const MAXIMUM_PART_SIZE: u64 = 5 * GiB;

/// The limits within which a transfer is planned.
#[derive(Clone, Copy, Debug, PartialEq, Eq)]
pub struct ServiceLimits {
    /// The smallest part size the service accepts.
    pub min_part_size: u64,
    /// The largest part size the service accepts.
    pub max_part_size: u64,
    /// The largest number of parts one transfer may have.
    pub max_part_count: u64,
    /// The smallest object that is moved in parts.
    pub min_object_size: u64,
    /// The largest object the service stores.
    pub max_object_size: u64,
}

impl ServiceLimits {
    /// Limits that a plan can be made within: parts and objects have at least
    /// one byte, a transfer may have at least one part, and the part sizes
    /// form a range.
    pub open spec fn wf(self) -> bool {
        &&& 1 <= self.min_part_size <= self.max_part_size
        &&& 1 <= self.max_part_count
        &&& 1 <= self.min_object_size
    }

    /// The limits of S3 multipart uploads.
    pub open spec fn spec_s3() -> ServiceLimits {
        ServiceLimits {
            min_part_size: MINIMUM_PART_SIZE,
            max_part_size: MAXIMUM_PART_SIZE,
            max_part_count: MAXIMUM_NUMBER_OF_PARTS,
            min_object_size: MINIMUM_PART_SIZE,
            max_object_size: MAXIMUM_OBJECT_SIZE,
        }
    }

    /// The limits of ranged downloads: any part size and any number of parts,
    /// for any object that is not empty.
    pub open spec fn spec_ranged() -> ServiceLimits {
        ServiceLimits {
            min_part_size: 1,
            max_part_size: u64::MAX,
            max_part_count: u64::MAX,
            min_object_size: 1,
            max_object_size: u64::MAX,
        }
    }

    /// The limits of S3 multipart uploads.
    pub fn s3() -> (limits: ServiceLimits)
        ensures
            limits == Self::spec_s3(),
            limits.wf(),
    {
        ServiceLimits {
            min_part_size: MINIMUM_PART_SIZE,
            max_part_size: MAXIMUM_PART_SIZE,
            max_part_count: MAXIMUM_NUMBER_OF_PARTS,
            min_object_size: MINIMUM_PART_SIZE,
            max_object_size: MAXIMUM_OBJECT_SIZE,
        }
    }

    /// The limits of ranged downloads.
    pub fn ranged() -> (limits: ServiceLimits)
        ensures
            limits == Self::spec_ranged(),
            limits.wf(),
    {
        ServiceLimits {
            min_part_size: 1,
            max_part_size: u64::MAX,
            max_part_count: u64::MAX,
            min_object_size: 1,
            max_object_size: u64::MAX,
        }
    }
}

} // verus!
