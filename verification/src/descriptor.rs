//! The transfer descriptor: the durable record of one transfer in flight,
//! and the rules that every such record keeps.

use vstd::prelude::*;
use crate::arith::div_ceil;
use crate::part::Part;
use crate::plan::Plan;

verus! {

/// The integrity tokens that the service returns for an uploaded part. The
/// service wants them back when the upload is completed.
#[derive(Clone, Debug, PartialEq, Eq)]
pub struct IntegrityTokens {
    pub e_tag: Option<String>,
    pub checksum_crc32: Option<String>,
    pub checksum_crc32_c: Option<String>,
    pub checksum_sha1: Option<String>,
    pub checksum_sha256: Option<String>,
}

/// [`IntegrityTokens`] as a value of mathematics.
pub struct IntegrityTokensView {
    pub e_tag: Option<Seq<char>>,
    pub checksum_crc32: Option<Seq<char>>,
    pub checksum_crc32_c: Option<Seq<char>>,
    pub checksum_sha1: Option<Seq<char>>,
    pub checksum_sha256: Option<Seq<char>>,
}

impl View for IntegrityTokens {
    type V = IntegrityTokensView;

    open spec fn view(&self) -> IntegrityTokensView {
        IntegrityTokensView {
            e_tag: self.e_tag.deep_view(),
            checksum_crc32: self.checksum_crc32.deep_view(),
            checksum_crc32_c: self.checksum_crc32_c.deep_view(),
            checksum_sha1: self.checksum_sha1.deep_view(),
            checksum_sha256: self.checksum_sha256.deep_view(),
        }
    }
}

impl IntegrityTokens {
    /// No tokens at all: what a download has to show for a part.
    pub fn none() -> (tokens: IntegrityTokens)
        ensures
            tokens@ == (IntegrityTokensView {
                e_tag: None,
                checksum_crc32: None,
                checksum_crc32_c: None,
                checksum_sha1: None,
                checksum_sha256: None,
            }),
    {
        IntegrityTokens {
            e_tag: None,
            checksum_crc32: None,
            checksum_crc32_c: None,
            checksum_sha1: None,
            checksum_sha256: None,
        }
    }
}

/// The receipt for one completed part of an upload.
#[derive(Clone, Debug, PartialEq, Eq)]
pub struct Receipt {
    /// The number of the part that the receipt is for.
    pub part_number: u64,
    /// What the service returned for the part.
    pub tokens: IntegrityTokens,
}

/// A [`Receipt`] as a value of mathematics.
pub struct ReceiptView {
    pub part_number: u64,
    pub tokens: IntegrityTokensView,
}

impl View for Receipt {
    type V = ReceiptView;

    open spec fn view(&self) -> ReceiptView {
        ReceiptView { part_number: self.part_number, tokens: self.tokens@ }
    }
}

impl DeepView for Receipt {
    type V = ReceiptView;

    open spec fn deep_view(&self) -> ReceiptView {
        self@
    }
}

/// The record of one transfer in flight. It is what the state file holds,
/// and all that is needed to take the transfer up again or to call it off.
#[derive(Clone, Debug, PartialEq, Eq)]
pub struct Descriptor {
    /// The bucket that holds the object.
    pub bucket: String,
    /// The key of the object in its bucket.
    pub key: String,
    /// The local file: the source of an upload, the destination of a
    /// download.
    pub local_path: String,
    /// The size of the object, in bytes.
    pub object_size: u64,
    /// The size of every part but the last, in bytes.
    pub part_size: u64,
    /// The number of parts.
    pub part_count: u64,
    /// The handle under which the service knows the upload. A download has
    /// none.
    pub transfer_handle: Option<String>,
    /// The number of the last part that is fully done; 0 while none is.
    pub last_completed_part: u64,
    /// The receipts of the completed parts of an upload, in part order. A
    /// download has none.
    pub receipts: Vec<Receipt>,
}

/// A [`Descriptor`] as a value of mathematics.
pub struct DescriptorView {
    pub bucket: Seq<char>,
    pub key: Seq<char>,
    pub local_path: Seq<char>,
    pub object_size: u64,
    pub part_size: u64,
    pub part_count: u64,
    pub transfer_handle: Option<Seq<char>>,
    pub last_completed_part: u64,
    pub receipts: Seq<ReceiptView>,
}

impl DescriptorView {
    /// How the object is cut into parts.
    pub open spec fn plan(self) -> Plan {
        Plan {
            object_size: self.object_size,
            part_size: self.part_size,
            part_count: self.part_count,
        }
    }

    /// Whether the transfer is an upload: it is one exactly if the service
    /// has issued a handle for it.
    pub open spec fn is_upload(self) -> bool {
        self.transfer_handle is Some
    }

    /// Whether every part is done.
    pub open spec fn is_complete(self) -> bool {
        self.last_completed_part == self.part_count
    }

    /// The receipts are those of the parts 1 to `last_completed_part`, one
    /// each, in part order.
    pub open spec fn receipts_in_order(self) -> bool {
        &&& self.receipts.len() == self.last_completed_part
        &&& forall|i: int|
            0 <= i < self.receipts.len() ==> (#[trigger] self.receipts[i]).part_number == i + 1
    }

    /// The rules that every descriptor keeps: the object is not empty, a
    /// part has at least one byte, the part count is the object size over
    /// the part size, rounded up, no more parts are done than there are,
    /// and an upload holds the receipts of its completed parts, in order,
    /// while a download holds none.
    pub open spec fn wf(self) -> bool {
        &&& self.plan().wf()
        &&& self.last_completed_part <= self.part_count
        &&& if self.is_upload() {
            self.receipts_in_order()
        } else {
            self.receipts.len() == 0
        }
    }

    /// The part that is due next, if any is left.
    pub open spec fn next_part(self) -> Option<Part> {
        if self.last_completed_part < self.part_count {
            Some(self.plan().part_of((self.last_completed_part + 1) as nat))
        } else {
            None
        }
    }

    /// The number of bytes in the completed parts.
    pub open spec fn completed_bytes(self) -> nat {
        self.plan().covered(self.last_completed_part as nat)
    }

    /// The descriptor once the part that is due has succeeded with
    /// `tokens`: one more part is done, and an upload has its receipt.
    pub open spec fn with_success(self, tokens: IntegrityTokensView) -> DescriptorView {
        let number = (self.last_completed_part + 1) as u64;
        DescriptorView {
            last_completed_part: number,
            receipts: if self.is_upload() {
                self.receipts.push(ReceiptView { part_number: number, tokens })
            } else {
                self.receipts
            },
            ..self
        }
    }

    /// A descriptor keeps its rules when a part succeeds; its plan, its
    /// names and its handle stay as they are, and its count of completed
    /// parts goes up by one.
    pub proof fn lemma_with_success(self, tokens: IntegrityTokensView)
        requires
            self.wf(),
            !self.is_complete(),
        ensures
            self.with_success(tokens).wf(),
            self.with_success(tokens).plan() == self.plan(),
            self.with_success(tokens).transfer_handle == self.transfer_handle,
            self.with_success(tokens).last_completed_part == self.last_completed_part + 1,
            self.is_upload() ==> self.with_success(tokens).receipts.drop_last()
                == self.receipts,
    {
        let next = self.with_success(tokens);
        if self.is_upload() {
            assert(next.receipts.drop_last() =~= self.receipts);
            assert forall|i: int| 0 <= i < next.receipts.len() implies (
            #[trigger] next.receipts[i]).part_number == i + 1 by {
                if i < self.receipts.len() {
                    assert(next.receipts[i] == self.receipts[i]);
                }
            }
        }
    }
}

impl View for Descriptor {
    type V = DescriptorView;

    open spec fn view(&self) -> DescriptorView {
        DescriptorView {
            bucket: self.bucket@,
            key: self.key@,
            local_path: self.local_path@,
            object_size: self.object_size,
            part_size: self.part_size,
            part_count: self.part_count,
            transfer_handle: self.transfer_handle.deep_view(),
            last_completed_part: self.last_completed_part,
            receipts: self.receipts.deep_view(),
        }
    }
}

impl Descriptor {
    /// The descriptor of an upload that is about to start: `source` goes to
    /// `key` in `bucket` as `plan` cuts it, under the `handle` that the
    /// service issued.
    pub fn for_upload(
        bucket: String,
        key: String,
        source: String,
        plan: &Plan,
        handle: String,
    ) -> (descriptor: Descriptor)
        requires
            plan.wf(),
        ensures
            descriptor@ == (DescriptorView {
                bucket: bucket@,
                key: key@,
                local_path: source@,
                object_size: plan.object_size,
                part_size: plan.part_size,
                part_count: plan.part_count,
                transfer_handle: Some(handle@),
                last_completed_part: 0,
                receipts: Seq::empty(),
            }),
            descriptor@.wf(),
    {
        let descriptor = Descriptor {
            bucket,
            key,
            local_path: source,
            object_size: plan.object_size,
            part_size: plan.part_size,
            part_count: plan.part_count,
            transfer_handle: Some(handle),
            last_completed_part: 0,
            receipts: Vec::new(),
        };
        assert(descriptor.receipts.deep_view() =~= Seq::<ReceiptView>::empty());
        descriptor
    }

    /// The descriptor of a download that is about to start: `key` in
    /// `bucket` goes to `destination` as `plan` cuts it.
    pub fn for_download(bucket: String, key: String, destination: String, plan: &Plan) -> (descriptor:
        Descriptor)
        requires
            plan.wf(),
        ensures
            descriptor@ == (DescriptorView {
                bucket: bucket@,
                key: key@,
                local_path: destination@,
                object_size: plan.object_size,
                part_size: plan.part_size,
                part_count: plan.part_count,
                transfer_handle: None,
                last_completed_part: 0,
                receipts: Seq::empty(),
            }),
            descriptor@.wf(),
    {
        let descriptor = Descriptor {
            bucket,
            key,
            local_path: destination,
            object_size: plan.object_size,
            part_size: plan.part_size,
            part_count: plan.part_count,
            transfer_handle: None,
            last_completed_part: 0,
            receipts: Vec::new(),
        };
        assert(descriptor.receipts.deep_view() =~= Seq::<ReceiptView>::empty());
        descriptor
    }

    /// Whether the descriptor keeps the rules of its kind. A record read
    /// from a state file is to be tested before it is relied on.
    pub fn is_consistent(&self) -> (consistent: bool)
        ensures
            consistent == self@.wf(),
    {
        if self.object_size == 0 || self.part_size == 0 {
            return false;
        }
        if self.part_count != div_ceil(self.object_size, self.part_size) {
            return false;
        }
        if self.last_completed_part > self.part_count {
            return false;
        }
        if self.transfer_handle.is_none() {
            return self.receipts.len() == 0;
        }
        if self.receipts.len() as u64 != self.last_completed_part {
            return false;
        }
        let mut i: usize = 0;
        while i < self.receipts.len()
            invariant
                i <= self.receipts.len(),
                self.receipts.len() == self.last_completed_part,
                forall|j: int|
                    0 <= j < i ==> (#[trigger] self@.receipts[j]).part_number == j + 1,
            decreases self.receipts.len() - i,
        {
            if self.receipts[i].part_number != i as u64 + 1 {
                assert(self@.receipts[i as int].part_number != i + 1);
                return false;
            }
            i += 1;
        }
        true
    }

    /// How the object is cut into parts.
    pub fn plan(&self) -> (plan: Plan)
        ensures
            plan == self@.plan(),
    {
        Plan {
            object_size: self.object_size,
            part_size: self.part_size,
            part_count: self.part_count,
        }
    }

    /// Whether the transfer is an upload.
    pub fn is_upload(&self) -> (upload: bool)
        ensures
            upload == self@.is_upload(),
    {
        self.transfer_handle.is_some()
    }

    /// Whether every part is done.
    pub fn is_complete(&self) -> (complete: bool)
        ensures
            complete == self@.is_complete(),
    {
        self.last_completed_part == self.part_count
    }

    /// The part that is due next: the one after the last completed part,
    /// or none when every part is done.
    pub fn next_part(&self) -> (part: Option<Part>)
        requires
            self@.wf(),
        ensures
            part == self@.next_part(),
            part matches Some(p) ==> p.number == self.last_completed_part + 1,
    {
        if self.last_completed_part < self.part_count {
            Some(self.plan().part(self.last_completed_part + 1))
        } else {
            None
        }
    }

    /// The number of bytes in the completed parts.
    pub fn completed_bytes(&self) -> (bytes: u64)
        requires
            self@.wf(),
        ensures
            bytes == self@.completed_bytes(),
    {
        self.plan().bytes_through(self.last_completed_part)
    }

    /// Records that the part that is due has succeeded with `tokens`.
    pub fn record_success(&mut self, tokens: IntegrityTokens)
        requires
            old(self)@.wf(),
            !old(self)@.is_complete(),
        ensures
            final(self)@ == old(self)@.with_success(tokens@),
            final(self)@.wf(),
    {
        proof {
            self@.lemma_with_success(tokens@);
        }
        let number: u64 = self.last_completed_part + 1;
        if self.transfer_handle.is_some() {
            self.receipts.push(Receipt { part_number: number, tokens });
            assert(self.receipts.deep_view() =~= old(self).receipts.deep_view().push(
                ReceiptView { part_number: number, tokens: tokens@ },
            ));
        }
        self.last_completed_part = number;
    }
}

} // verus!
