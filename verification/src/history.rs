//! Whole runs of a transfer: what holds of every sequence of events, and so
//! of whatever the network and the disk do.

use vstd::prelude::*;
use crate::descriptor::DescriptorView;
use crate::machine::admitted;
use crate::machine::TransferView;
use crate::signal::ActionView;
use crate::signal::EventView;

verus! {

impl TransferView {
    /// The transfer after the events of `events`, taken in turn.
    pub open spec fn run(self, events: Seq<EventView>) -> TransferView
        decreases events.len(),
    {
        if events.len() == 0 {
            self
        } else {
            self.run(events.drop_last()).step(events.last())
        }
    }

    /// Whether the transfer is one that `max_part_count` lets go on: while
    /// parts are transferred and progress is recorded, an upload has no
    /// more parts than that.
    pub open spec fn on_course(self, max_part_count: u64) -> bool {
        &&& self.wf()
        &&& (self.stage is Persisting || self.stage is Transferring) ==> admitted(
            self.descriptor,
            max_part_count,
        )
    }

    /// Throughout a run the transfer stays well formed, the plan, the names
    /// and the handle in its descriptor stay as they were, and the count of
    /// completed parts never goes down: what is recorded as done stays
    /// done. The receipts that were there at the start stay where they
    /// are, in front of those that the run adds.
    pub proof fn lemma_run(self, events: Seq<EventView>)
        requires
            self.wf(),
        ensures
            self.run(events).wf(),
            self.run(events).descriptor.plan() == self.descriptor.plan(),
            self.run(events).descriptor.bucket == self.descriptor.bucket,
            self.run(events).descriptor.key == self.descriptor.key,
            self.run(events).descriptor.local_path == self.descriptor.local_path,
            self.run(events).descriptor.transfer_handle == self.descriptor.transfer_handle,
            self.descriptor.last_completed_part <= self.run(events).descriptor.last_completed_part
                <= self.descriptor.part_count,
            self.run(events).descriptor.last_completed_part <= self.descriptor.last_completed_part
                + events.len(),
            self.descriptor.receipts.len() <= self.run(events).descriptor.receipts.len(),
            self.run(events).descriptor.receipts.subrange(
                0,
                self.descriptor.receipts.len() as int,
            ) == self.descriptor.receipts,
        decreases events.len(),
    {
        if events.len() == 0 {
            assert(self.descriptor.receipts.subrange(0, self.descriptor.receipts.len() as int)
                =~= self.descriptor.receipts);
        } else {
            let before = self.run(events.drop_last());
            self.lemma_run(events.drop_last());
            before.lemma_step(events.last());
            let after = before.step(events.last());
            let kept = self.descriptor.receipts.len() as int;
            assert(after.descriptor.receipts.subrange(0, kept) =~= before.descriptor.receipts.subrange(
                0,
                kept,
            ));
        }
    }

    /// A run in two stretches comes to the same as the run in one.
    pub proof fn lemma_run_split(self, first: Seq<EventView>, second: Seq<EventView>)
        ensures
            self.run(first + second) == self.run(first).run(second),
        decreases second.len(),
    {
        if second.len() == 0 {
            assert(first + second =~= first);
        } else {
            self.lemma_run_split(first, second.drop_last());
            assert((first + second).drop_last() =~= first + second.drop_last());
            assert((first + second).last() == second.last());
        }
    }

    /// A transfer that `max_part_count` lets go on stays such a transfer,
    /// whatever happens.
    pub proof fn lemma_stays_on_course(self, max_part_count: u64, events: Seq<EventView>)
        requires
            self.on_course(max_part_count),
        ensures
            self.run(events).on_course(max_part_count),
        decreases events.len(),
    {
        if events.len() > 0 {
            let before = self.run(events.drop_last());
            self.lemma_stays_on_course(max_part_count, events.drop_last());
            before.lemma_step(events.last());
            if before.descriptor.is_complete() {
                Self::lemma_complete_adds_up(before.descriptor);
            }
        }
    }
}

/// A transfer that is resumed never transfers a completed part again.
///
/// When a transfer is taken up from a descriptor that records the parts 1
/// to `k` as done, then every part it asks for, at any point of any run,
/// has a number above `k` and at most the part count. The part it asks for
/// is always the one after the last completed part.
pub proof fn lemma_resume_skips_completed_parts(
    descriptor: DescriptorView,
    max_part_count: u64,
    events: Seq<EventView>,
)
    requires
        descriptor.wf(),
    ensures
        TransferView::resumed(descriptor, max_part_count).run(events).pending()
            matches ActionView::TransferPart { part, .. } ==> {
            &&& descriptor.last_completed_part < part.number <= descriptor.part_count
            &&& part == descriptor.plan().part_of(part.number as nat)
            &&& part.number == TransferView::resumed(descriptor, max_part_count).run(
                events,
            ).descriptor.last_completed_part + 1
        },
{
    let begun = TransferView::resumed(descriptor, max_part_count);
    TransferView::lemma_begin_wf(descriptor, max_part_count);
    begun.lemma_run(events);
    begun.run(events).lemma_pending_part();
}

/// A transfer that is interrupted after its progress was written, and then
/// resumed, goes on exactly as it would have gone on uninterrupted.
///
/// Take any run of a transfer that was started or resumed, up to a point
/// where the descriptor is being written to the state file. If the write
/// succeeds, the transfer is in the very state in which a transfer finds
/// itself that is resumed from the descriptor just written. So whatever
/// happens from there, both do the same, ask for the same parts in the same
/// order, and end with the same receipts in the same order.
pub proof fn lemma_resume_continues_run(
    descriptor: DescriptorView,
    max_part_count: u64,
    fresh: bool,
    events: Seq<EventView>,
    rest: Seq<EventView>,
)
    requires
        descriptor.wf(),
    ensures
        ({
            let begun = if fresh {
                TransferView::started(descriptor, max_part_count)
            } else {
                TransferView::resumed(descriptor, max_part_count)
            };
            let interrupted = begun.run(events);
            let written = interrupted.step(EventView::Persisted(Ok(())));
            let resumed = TransferView::resumed(interrupted.descriptor, max_part_count);
            interrupted.stage is Persisting ==> {
                &&& interrupted.descriptor.wf()
                &&& written == resumed
                &&& written.pending() == resumed.pending()
                &&& written.run(rest) == resumed.run(rest)
                &&& written.run(rest).descriptor.receipts == resumed.run(rest).descriptor.receipts
                &&& begun.run(events.push(EventView::Persisted(Ok(()))) + rest) == resumed.run(rest)
            }
        }),
{
    let begun = if fresh {
        TransferView::started(descriptor, max_part_count)
    } else {
        TransferView::resumed(descriptor, max_part_count)
    };
    TransferView::lemma_begin_wf(descriptor, max_part_count);
    if descriptor.is_complete() {
        TransferView::lemma_complete_adds_up(descriptor);
    }
    assert(begun.on_course(max_part_count));
    begun.lemma_stays_on_course(max_part_count, events);
    let interrupted = begun.run(events);
    if interrupted.stage is Persisting {
        let acknowledged = events.push(EventView::Persisted(Ok(())));
        assert(acknowledged.drop_last() =~= events);
        assert(acknowledged.last() == EventView::Persisted(Ok(())));
        begun.lemma_run_split(acknowledged, rest);
    }
}

/// A transfer ends only in a stage that asks for nothing more, and stays
/// there: once it has ended, no event changes its outcome or its
/// descriptor.
pub proof fn lemma_finished_is_final(transfer: TransferView, events: Seq<EventView>)
    requires
        transfer.stage is Finished,
    ensures
        transfer.run(events) == transfer,
    decreases events.len(),
{
    if events.len() > 0 {
        lemma_finished_is_final(transfer, events.drop_last());
    }
}

/// A transfer that fails at the last try of a part, or for good, leaves
/// the state file as it last wrote it: it never asks for the state file to
/// be deleted, and the state file is deleted only when a transfer is
/// complete or called off.
pub proof fn lemma_delete_only_at_the_end(transfer: TransferView)
    requires
        transfer.wf(),
    ensures
        transfer.pending() is DeleteState ==> (transfer.stage is Cleaning
            && transfer.descriptor.is_complete()) || transfer.stage is AbortCleaning,
        transfer.pending() is CompleteRemote ==> transfer.descriptor.is_upload()
            && transfer.descriptor.is_complete() && transfer.descriptor.receipts.len()
            == transfer.descriptor.part_count,
        transfer.pending() is AbortRemote ==> transfer.descriptor.is_upload(),
{
}

} // verus!
