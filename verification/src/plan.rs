//! Partitioning of a byte range into fixed-size parts.

use vstd::prelude::*;

verus! {

/// Default chunk size of a download: 8 MiB.
pub const DOWNLOAD_PART_SIZE: u64 = 8 * 1024 * 1024;

/// Default part size of an upload: 500 MiB.
pub const UPLOAD_PART_SIZE: u64 = 500 * 1024 * 1024;

/// The smaller of two integers.
pub open spec fn spec_min(a: int, b: int) -> int {
    if a <= b {
        a
    } else {
        b
    }
}

/// Number of parts of `part_size` bytes that `span` bytes need, the last one
/// possibly shorter. Zero where there is nothing to cut or nothing to cut with.
pub open spec fn spec_part_count(span: int, part_size: int) -> int {
    if span <= 0 || part_size <= 0 {
        0
    } else {
        (span - 1) / part_size + 1
    }
}

/// First byte of part `k` (counted from 0) of a range that begins at `first`.
pub open spec fn spec_part_start(first: int, part_size: int, k: int) -> int {
    first + k * part_size
}

/// Last byte of part `k` (counted from 0) of the range `[first, total)`.
pub open spec fn spec_part_end(first: int, part_size: int, total: int, k: int) -> int {
    spec_min(spec_part_start(first, part_size, k + 1), total) - 1
}

/// Part `k` begins before `span` bytes are used up exactly when `k` is below
/// the part count.
pub proof fn lemma_part_index_bound(span: int, part_size: int, k: int)
    requires
        part_size > 0,
        span >= 0,
        k >= 0,
    ensures
        k * part_size < span <==> k < spec_part_count(span, part_size),
{
    if span == 0 {
        assert(k * part_size >= 0) by (nonlinear_arith)
            requires
                k >= 0,
                part_size > 0,
        ;
    } else {
        let q = (span - 1) / part_size;
        let r = (span - 1) % part_size;
        assert(span - 1 == q * part_size + r && 0 <= r < part_size) by (nonlinear_arith)
            requires
                q == (span - 1) / part_size,
                r == (span - 1) % part_size,
                part_size > 0,
        ;
        assert(k * part_size < span <==> k <= q) by (nonlinear_arith)
            requires
                span - 1 == q * part_size + r,
                0 <= r < part_size,
                part_size > 0,
        ;
    }
}

/// Computes the number of parts that `span` bytes need.
pub fn part_count(span: u64, part_size: u64) -> (n: u64)
    ensures
        n == spec_part_count(span as int, part_size as int),
{
    if span == 0 || part_size == 0 {
        0
    } else {
        let q: u64 = (span - 1) / part_size;
        assert(q <= span - 1) by (nonlinear_arith)
            requires
                q == (span - 1) / (part_size as int),
                part_size > 0,
                span >= 1,
        ;
        q + 1
    }
}

/// One unit of transfer: a contiguous byte range of the file.
#[derive(Clone, Debug, PartialEq, Eq)]
pub struct PartDescriptor {
    /// Position in the plan, counted from 1 as the server counts parts.
    pub index: u32,
    /// First byte of the part.
    pub start: u64,
    /// Last byte of the part.
    pub end_inclusive: u64,
    /// Where the part is uploaded to; absent in a download plan.
    pub upload_target: Option<String>,
}

impl PartDescriptor {
    /// Number of bytes in the part.
    pub open spec fn spec_len(&self) -> int {
        self.end_inclusive - self.start + 1
    }

    /// Whether byte `b` of the file lies in the part.
    pub open spec fn covers(&self, b: int) -> bool {
        self.start <= b <= self.end_inclusive
    }

    /// Whether this is part `k` (counted from 0) of the range `[first, total)`
    /// cut into parts of `part_size` bytes.
    pub open spec fn is_part(&self, first: int, part_size: int, total: int, k: int) -> bool {
        &&& self.index == k + 1
        &&& self.start == spec_part_start(first, part_size, k)
        &&& self.end_inclusive == spec_part_end(first, part_size, total, k)
    }

    /// Number of bytes in the part.
    pub fn len(&self) -> (n: u64)
        requires
            self.start <= self.end_inclusive,
            self.spec_len() <= u64::MAX,
        ensures
            n == self.spec_len(),
    {
        self.end_inclusive - self.start + 1
    }
}

/// The intended partitioning of the bytes `[start_offset, total_size)` of a
/// file into parts that are transferred independently.
#[derive(Clone, Debug, PartialEq, Eq)]
pub struct TransferPlan {
    /// Length of the whole file.
    pub total_size: u64,
    /// Length of every part but possibly the last.
    pub part_size: u64,
    /// First byte that the plan transfers: 0, or the resume offset of a download.
    pub start_offset: u64,
    /// The parts, in ascending order.
    pub parts: Vec<PartDescriptor>,
}

impl TransferPlan {
    /// The plan's invariant: part `k` is the `k`-th slice of `part_size` bytes
    /// of `[start_offset, total_size)`, the last slice cut off at the end of the
    /// file, and there are as many parts as the range needs.
    pub open spec fn wf(&self) -> bool {
        &&& self.part_size > 0
        &&& self.start_offset <= self.total_size
        &&& self.parts@.len() == spec_part_count(
            self.total_size - self.start_offset,
            self.part_size as int,
        )
        &&& self.parts@.len() <= u32::MAX
        &&& forall|k: int|
            0 <= k < self.parts@.len() ==> (#[trigger] self.parts@[k]).is_part(
                self.start_offset as int,
                self.part_size as int,
                self.total_size as int,
                k,
            )
    }

    /// Number of bytes that the plan transfers.
    pub open spec fn spec_span(&self) -> int {
        self.total_size - self.start_offset
    }

    /// The part (counted from 0) that holds byte `b`.
    pub open spec fn spec_part_of(&self, b: int) -> int {
        (b - self.start_offset) / (self.part_size as int)
    }

    /// Cuts `[start_offset, total_size)` into parts of `part_size` bytes. An
    /// offset beyond the end of the file leaves nothing to transfer. There is
    /// no plan for a part size of zero, nor where the parts cannot be numbered
    /// in 32 bits.
    pub fn new(total_size: u64, start_offset: u64, part_size: u64) -> (r: Option<TransferPlan>)
        ensures
            r is Some <==> part_size > 0 && spec_part_count(
                total_size - spec_min(start_offset as int, total_size as int),
                part_size as int,
            ) <= u32::MAX,
            r matches Some(plan) ==> {
                &&& plan.wf()
                &&& plan.total_size == total_size
                &&& plan.part_size == part_size
                &&& plan.start_offset == spec_min(start_offset as int, total_size as int)
                &&& forall|k: int|
                    0 <= k < plan.parts@.len() ==> (#[trigger] plan.parts@[k]).upload_target
                        is None
            },
    {
        if part_size == 0 {
            return None;
        }
        let first: u64 = if start_offset < total_size {
            start_offset
        } else {
            total_size
        };
        let count: u64 = part_count(total_size - first, part_size);
        if count > 0xffff_ffff {
            return None;
        }
        let mut parts: Vec<PartDescriptor> = Vec::new();
        let mut start: u64 = first;
        let mut made: u32 = 0;
        while start < total_size
            invariant
                part_size > 0,
                first <= start <= total_size,
                count == spec_part_count(total_size - first, part_size as int),
                count <= u32::MAX,
                parts@.len() == made,
                made <= count,
                start < total_size ==> start == spec_part_start(
                    first as int,
                    part_size as int,
                    made as int,
                ),
                start == total_size ==> made == count,
                forall|k: int|
                    0 <= k < made ==> (#[trigger] parts@[k]).is_part(
                        first as int,
                        part_size as int,
                        total_size as int,
                        k,
                    ),
                forall|k: int| 0 <= k < made ==> (#[trigger] parts@[k]).upload_target is None,
            decreases total_size - start,
        {
            proof {
                lemma_part_index_bound(total_size - first, part_size as int, made as int);
                lemma_part_index_bound(total_size - first, part_size as int, made + 1);
                assert((made + 1) * part_size == made * part_size + part_size)
                    by (nonlinear_arith);
            }
            let remaining: u64 = total_size - start;
            let end: u64 = if remaining > part_size {
                start + (part_size - 1)
            } else {
                total_size - 1
            };
            parts.push(
                PartDescriptor { index: made + 1, start, end_inclusive: end, upload_target: None },
            );
            start = end + 1;
            made = made + 1;
        }
        proof {
            if first == total_size {
                assert(spec_part_count(0, part_size as int) == 0);
            }
        }
        Some(TransferPlan { total_size, part_size, start_offset: first, parts })
    }

    /// Number of parts.
    pub fn part_total(&self) -> (n: usize)
        ensures
            n == self.parts@.len(),
    {
        self.parts.len()
    }
}

/// The parts of a plan tile `[start_offset, total_size)`: they follow one
/// another without gap or overlap from the first byte to the last, every part
/// but the last is `part_size` bytes long, the last is no longer, and every
/// byte of the range lies in exactly one part.
pub proof fn lemma_plan_partitions(plan: TransferPlan)
    requires
        plan.wf(),
    ensures
        plan.parts@.len() == 0 <==> plan.start_offset == plan.total_size,
        plan.parts@.len() > 0 ==> plan.parts@[0].start == plan.start_offset
            && plan.parts@.last().end_inclusive == plan.total_size - 1,
        forall|k: int|
            0 <= k < plan.parts@.len() - 1 ==> (#[trigger] plan.parts@[k + 1]).start
                == plan.parts@[k].end_inclusive + 1,
        forall|k: int|
            0 <= k < plan.parts@.len() - 1 ==> (#[trigger] plan.parts@[k]).spec_len()
                == plan.part_size,
        forall|k: int|
            0 <= k < plan.parts@.len() ==> 1 <= (#[trigger] plan.parts@[k]).spec_len()
                <= plan.part_size,
        forall|b: int|
            plan.start_offset <= b < plan.total_size ==> 0 <= #[trigger] plan.spec_part_of(b)
                < plan.parts@.len() && plan.parts@[plan.spec_part_of(b)].covers(b),
        forall|k: int, b: int|
            0 <= k < plan.parts@.len() && #[trigger] plan.parts@[k].covers(b)
                ==> plan.start_offset <= b < plan.total_size && k == plan.spec_part_of(b),
{
    let first = plan.start_offset as int;
    let size = plan.part_size as int;
    let total = plan.total_size as int;
    let n = plan.parts@.len() as int;
    lemma_part_index_bound(total - first, size, 0);
    lemma_part_index_bound(total - first, size, n);
    if n > 0 {
        lemma_part_index_bound(total - first, size, n - 1);
    }
    assert forall|k: int| 0 <= k < n implies {
        &&& first + k * size < total
        &&& (#[trigger] plan.parts@[k]).start == first + k * size
        &&& k < n - 1 ==> plan.parts@[k].end_inclusive == first + (k + 1) * size - 1
        &&& k == n - 1 ==> plan.parts@[k].end_inclusive == total - 1
        &&& (k + 1) * size == k * size + size
    } by {
        assert(plan.parts@[k].is_part(first, size, total, k));
        lemma_part_index_bound(total - first, size, k);
        lemma_part_index_bound(total - first, size, k + 1);
        assert((k + 1) * size == k * size + size) by (nonlinear_arith);
    }
    assert forall|b: int| first <= b < total implies 0 <= #[trigger] plan.spec_part_of(b) < n
        && plan.parts@[plan.spec_part_of(b)].covers(b) by {
        let k = (b - first) / size;
        let r = (b - first) % size;
        assert(b - first == k * size + r && 0 <= r < size && 0 <= k) by (nonlinear_arith)
            requires
                k == (b - first) / size,
                r == (b - first) % size,
                size > 0,
                b - first >= 0,
        ;
        lemma_part_index_bound(total - first, size, k);
        assert(plan.parts@[k].is_part(first, size, total, k));
    }
    assert forall|k: int, b: int| 0 <= k < n && #[trigger] plan.parts@[k].covers(b) implies first
        <= b < total && k == plan.spec_part_of(b) by {
        assert(plan.parts@[k].is_part(first, size, total, k));
        let r = b - first - k * size;
        assert(0 <= r < size);
        assert((k * size + r) / size == k) by (nonlinear_arith)
            requires
                0 <= r < size,
                0 <= k,
        ;
    }
}

} // verus!
