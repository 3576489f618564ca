//! The parts of a planned transfer: where each one starts, how long it is,
//! and the proof that together they are the object, byte for byte.

use vstd::prelude::*;
use vstd::arithmetic::div_mod::lemma_fundamental_div_mod;
use vstd::arithmetic::div_mod::lemma_mod_bound;
use crate::arith::lemma_ceil_div_bounds;
use crate::limits::ServiceLimits;
use crate::plan::lemma_plan_within_limits;
use crate::plan::plan_for;
use crate::plan::Plan;

verus! {

/// One part of a transfer. A part is computed when it is needed and never
/// stored.
#[derive(Clone, Copy, Debug, PartialEq, Eq)]
pub struct Part {
    /// The number of the part; the first part has number 1.
    pub number: u64,
    /// The offset of the part's first byte in the object.
    pub offset: u64,
    /// The number of bytes in the part.
    pub length: u64,
}

/// A range of bytes of the object, both ends included, as a ranged request
/// names it.
#[derive(Clone, Copy, Debug, PartialEq, Eq)]
pub struct ByteRange {
    /// The offset of the first byte asked for.
    pub first: u64,
    /// The offset of the last byte asked for.
    pub last: u64,
}

impl Plan {
    /// Whether `number` is the number of a part of this plan.
    pub open spec fn has_part(self, number: nat) -> bool {
        1 <= number <= self.part_count
    }

    /// The offset at which part `number` starts.
    pub open spec fn offset_of(self, number: nat) -> nat {
        ((number - 1) * self.part_size) as nat
    }

    /// The length of part `number`: the part size, but for the last part,
    /// which holds what the parts before it leave.
    pub open spec fn length_of(self, number: nat) -> nat {
        if number < self.part_count {
            self.part_size as nat
        } else {
            (self.object_size - (self.part_count - 1) * self.part_size) as nat
        }
    }

    /// Part `number` of this plan.
    pub open spec fn part_of(self, number: nat) -> Part {
        Part {
            number: number as u64,
            offset: self.offset_of(number) as u64,
            length: self.length_of(number) as u64,
        }
    }

    /// The lengths of the parts 1 to `upto`, added up.
    pub open spec fn covered(self, upto: nat) -> nat
        decreases upto,
    {
        if upto == 0 {
            0
        } else {
            self.covered((upto - 1) as nat) + self.length_of(upto)
        }
    }

    /// The byte range that a ranged request for part `number` names. The
    /// upper bound is the last byte of a full part from the part's offset; a
    /// bound beyond the object's size is cut back to the object's last byte.
    pub open spec fn range_of(self, number: nat) -> ByteRange {
        let first = self.offset_of(number);
        let last = first + self.part_size - 1;
        ByteRange {
            first: first as u64,
            last: if last > self.object_size {
                (self.object_size - 1) as u64
            } else {
                last as u64
            },
        }
    }

    /// The part, if any, that holds the byte at offset `byte`.
    pub open spec fn part_holding(self, byte: nat) -> nat {
        byte / (self.part_size as nat) + 1
    }

    /// Where each part lies: it is not empty and no longer than the part
    /// size, it starts within the object, and it ends where the next part
    /// starts, the last one at the end of the object.
    pub proof fn lemma_part_bounds(self, number: nat)
        requires
            self.wf(),
            self.has_part(number),
        ensures
            1 <= self.length_of(number) <= self.part_size,
            self.offset_of(number) < self.object_size,
            self.offset_of(number) + self.length_of(number) <= self.object_size,
            number == 1 ==> self.offset_of(number) == 0,
            number < self.part_count ==> self.offset_of(number) + self.length_of(number)
                == self.offset_of(number + 1),
            number == self.part_count ==> self.offset_of(number) + self.length_of(number)
                == self.object_size,
    {
        let size = self.part_size as int;
        let count = self.part_count as int;
        let n = number as int;
        lemma_ceil_div_bounds(self.object_size as nat, self.part_size as nat);
        assert((n - 1) * size <= (count - 1) * size) by (nonlinear_arith)
            requires
                n <= count,
                size >= 1,
        ;
        assert(count * size == (count - 1) * size + size) by (nonlinear_arith);
        assert(n * size == (n - 1) * size + size) by (nonlinear_arith);
        assert((1 - 1) * size == 0) by (nonlinear_arith);
        if n < count {
            assert(n * size <= (count - 1) * size) by (nonlinear_arith)
                requires
                    n <= count - 1,
                    size >= 1,
            ;
        }
    }

    /// The parts 1 to `upto` hold the first `upto` full parts' worth of
    /// bytes, and all parts together hold the whole object.
    pub proof fn lemma_covered(self, upto: nat)
        requires
            self.wf(),
            upto <= self.part_count,
        ensures
            upto < self.part_count ==> self.covered(upto) == upto * self.part_size,
            upto < self.part_count ==> self.covered(upto) == self.offset_of(upto + 1),
            upto == self.part_count ==> self.covered(upto) == self.object_size,
            self.covered(upto) <= self.object_size,
        decreases upto,
    {
        let size = self.part_size as int;
        lemma_ceil_div_bounds(self.object_size as nat, self.part_size as nat);
        if upto == 0 {
            assert(0 * size == 0) by (nonlinear_arith);
        } else {
            self.lemma_covered((upto - 1) as nat);
            self.lemma_part_bounds(upto);
            assert(upto * size == (upto - 1) * size + size) by (nonlinear_arith);
        }
    }

    /// The parts tile the object: every byte of it lies in exactly one part.
    pub proof fn lemma_parts_tile(self, byte: nat)
        requires
            self.wf(),
            byte < self.object_size,
        ensures
            self.has_part(self.part_holding(byte)),
            self.offset_of(self.part_holding(byte)) <= byte < self.offset_of(
                self.part_holding(byte),
            ) + self.length_of(self.part_holding(byte)),
            forall|number: nat|
                self.has_part(number) && self.offset_of(number) <= byte < self.offset_of(number)
                    + self.length_of(number) ==> number == self.part_holding(byte),
    {
        let size = self.part_size as int;
        let count = self.part_count as int;
        let q = byte as int / size;
        let holder = self.part_holding(byte);
        lemma_fundamental_div_mod(byte as int, size);
        lemma_mod_bound(byte as int, size);
        lemma_ceil_div_bounds(self.object_size as nat, self.part_size as nat);
        assert(size * q == q * size) by (nonlinear_arith);
        assert(q >= 0) by (nonlinear_arith)
            requires
                byte as int == size * q + byte as int % size,
                byte as int % size < size,
                size >= 1,
                byte >= 0,
        ;
        assert(q < count) by {
            if q >= count {
                assert(count * size <= q * size) by (nonlinear_arith)
                    requires
                        count <= q,
                        size >= 1,
                ;
            }
        }
        assert((q + 1 - 1) * size == q * size) by (nonlinear_arith);
        self.lemma_part_bounds(holder);
        if holder < self.part_count {
            assert((q + 1) * size == q * size + size) by (nonlinear_arith);
        }
        assert forall|number: nat|
            self.has_part(number) && self.offset_of(number) <= byte < self.offset_of(number)
                + self.length_of(number) implies number == holder by {
            self.lemma_part_bounds(number);
            let n = number as int;
            assert(n * size == (n - 1) * size + size) by (nonlinear_arith);
            if n - 1 < q {
                assert(n * size <= q * size) by (nonlinear_arith)
                    requires
                        n <= q,
                        size >= 1,
                ;
            }
            if n - 1 > q {
                assert((q + 1) * size <= (n - 1) * size) by (nonlinear_arith)
                    requires
                        q + 1 <= n - 1,
                        size >= 1,
                ;
                assert((q + 1) * size == q * size + size) by (nonlinear_arith);
            }
        }
    }

    /// Where the object size is a multiple of the part size, the last part
    /// is as long as every other part; where it is not, the last part holds
    /// the remainder and is strictly shorter.
    pub proof fn lemma_last_part(self)
        requires
            self.wf(),
        ensures
            self.object_size % self.part_size == 0 ==> self.length_of(self.part_count as nat)
                == self.part_size,
            self.object_size % self.part_size != 0 ==> self.length_of(self.part_count as nat)
                == self.object_size % self.part_size,
            self.object_size % self.part_size != 0 ==> self.length_of(self.part_count as nat)
                < self.part_size,
    {
        let size = self.part_size as int;
        let q = self.object_size as int / size;
        lemma_fundamental_div_mod(self.object_size as int, size);
        lemma_mod_bound(self.object_size as int, size);
        assert(size * q == q * size) by (nonlinear_arith);
        assert((q + 1 - 1) * size == q * size) by (nonlinear_arith);
        assert((q - 1) * size == q * size - size) by (nonlinear_arith);
    }

    /// What a ranged request for a part names: the bytes of the part, from
    /// its first to its last. One range is wider: where the last part is one
    /// byte short of a full part, the upper bound is the object's size, one
    /// past its last byte, and is not cut back.
    pub proof fn lemma_range_bounds(self, number: nat)
        requires
            self.wf(),
            self.has_part(number),
        ensures
            self.range_of(number).first == self.offset_of(number),
            self.range_of(number).first <= self.range_of(number).last,
            number == self.part_count && self.length_of(number) + 1 == self.part_size
                ==> self.range_of(number).last == self.object_size,
            !(number == self.part_count && self.length_of(number) + 1 == self.part_size)
                ==> self.range_of(number).last == self.offset_of(number) + self.length_of(number)
                - 1,
    {
        self.lemma_part_bounds(number);
    }

    /// Part `number` of this plan.
    pub fn part(&self, number: u64) -> (part: Part)
        requires
            self.wf(),
            self.has_part(number as nat),
        ensures
            part == self.part_of(number as nat),
            part.number == number,
            part.offset == self.offset_of(number as nat),
            part.length == self.length_of(number as nat),
    {
        proof {
            self.lemma_part_bounds(number as nat);
            self.lemma_part_bounds(self.part_count as nat);
        }
        let offset: u64 = (number - 1) * self.part_size;
        let length: u64 = if number < self.part_count {
            self.part_size
        } else {
            self.object_size - (self.part_count - 1) * self.part_size
        };
        Part { number, offset, length }
    }

    /// The number of bytes in the parts 1 to `upto`.
    pub fn bytes_through(&self, upto: u64) -> (bytes: u64)
        requires
            self.wf(),
            upto <= self.part_count,
        ensures
            bytes == self.covered(upto as nat),
    {
        proof {
            self.lemma_covered(upto as nat);
        }
        if upto < self.part_count {
            upto * self.part_size
        } else {
            self.object_size
        }
    }

    /// The byte range to ask for when part `number` is downloaded.
    pub fn byte_range(&self, number: u64) -> (range: ByteRange)
        requires
            self.wf(),
            self.has_part(number as nat),
        ensures
            range == self.range_of(number as nat),
    {
        proof {
            self.lemma_part_bounds(number as nat);
        }
        let first: u64 = (number - 1) * self.part_size;
        let last: u64 = match first.checked_add(self.part_size - 1) {
            Some(last) => {
                if last > self.object_size {
                    self.object_size - 1
                } else {
                    last
                }
            },
            None => self.object_size - 1,
        };
        ByteRange { first, last }
    }
}

/// The parts of every plan that is made add up to the object: their lengths
/// sum to the object size exactly.
pub proof fn lemma_planned_parts_cover_object(
    object_size: u64,
    requested: Option<u64>,
    limits: ServiceLimits,
)
    requires
        limits.wf(),
    ensures
        plan_for(object_size, requested, limits) matches Ok(plan) ==> plan.covered(
            plan.part_count as nat,
        ) == object_size,
{
    lemma_plan_within_limits(object_size, requested, limits);
    if let Ok(plan) = plan_for(object_size, requested, limits) {
        plan.lemma_covered(plan.part_count as nat);
    }
}

/// The same object, the same requested part size and the same limits give
/// the same parts, whenever and wherever the plan is made.
pub proof fn lemma_partition_is_determined(
    object_size: u64,
    requested: Option<u64>,
    limits: ServiceLimits,
    other_object_size: u64,
    other_requested: Option<u64>,
    other_limits: ServiceLimits,
    number: nat,
)
    requires
        object_size == other_object_size,
        requested == other_requested,
        limits == other_limits,
    ensures
        plan_for(object_size, requested, limits) == plan_for(
            other_object_size,
            other_requested,
            other_limits,
        ),
        plan_for(object_size, requested, limits) matches Ok(plan) ==> (plan_for(
            other_object_size,
            other_requested,
            other_limits,
        ) matches Ok(other) && plan.part_of(number) == other.part_of(number)),
{
}

} // verus!
