//! Chunk planning: partitioning the not-yet-downloaded tail of a file into
//! non-overlapping byte ranges that workers can fetch independently.
use vstd::prelude::*;

verus! {

/// Smallest size of a planned chunk, bounding per-request overhead.
pub const MIN_CHUNK_SIZE: u64 = 1048576;

/// Largest size of a planned chunk, bounding per-request memory and the cost
/// of retrying a failed request.
pub const MAX_CHUNK_SIZE: u64 = 67108864;

/// One half-open byte range `[start, end)` of the target file: the unit of
/// concurrent fetch work. Chunks are immutable once planned; each is handed
/// to exactly one worker.
#[derive(Debug, Clone, Copy, PartialEq, Eq, Structural)]
pub struct Chunk {
    pub start: u64,
    pub end: u64,
}

impl Chunk {
    /// A planned chunk covers at least one byte.
    pub open spec fn wf(self) -> bool {
        self.start < self.end
    }

    pub open spec fn spec_len(self) -> int {
        self.end - self.start
    }

    /// Number of bytes the chunk covers.
    pub fn byte_len(&self) -> (n: u64)
        requires
            self.start <= self.end,
        ensures
            n == self.spec_len(),
    {
        self.end - self.start
    }
}

/// Number of chunks aimed for: twice the worker count (saturating), at least two.
pub open spec fn spec_target_chunk_count(worker_count: u64) -> int {
    let doubled = if worker_count > u64::MAX as int / 2 {
        u64::MAX as int
    } else {
        2 * worker_count
    };
    if doubled < 2 {
        2int
    } else {
        doubled
    }
}

/// The planned size of each chunk (except possibly the last): the total split
/// over the target count, clamped to `[MIN_CHUNK_SIZE, MAX_CHUNK_SIZE]`.
pub open spec fn spec_chunk_size(total_size: u64, worker_count: u64) -> int {
    let raw = total_size as int / spec_target_chunk_count(worker_count);
    let lo = if raw > MIN_CHUNK_SIZE {
        raw
    } else {
        MIN_CHUNK_SIZE as int
    };
    if lo < MAX_CHUNK_SIZE {
        lo
    } else {
        MAX_CHUNK_SIZE as int
    }
}

/// The chunk sequence that tiles `[start, total)` with ranges of `size` bytes,
/// the last one truncated at `total`.
pub open spec fn spec_chunks_from(start: int, total: int, size: int) -> Seq<Chunk>
    decreases total - start,
{
    if start >= total || size < 1 || start < 0 || total > u64::MAX {
        Seq::empty()
    } else {
        let end = if total - start < size {
            total
        } else {
            start + size
        };
        seq![Chunk { start: start as u64, end: end as u64 }] + spec_chunks_from(end, total, size)
    }
}

/// The full plan for one download: the chunks covering `[resume_offset, total_size)`.
pub open spec fn spec_plan_chunks(total_size: u64, resume_offset: u64, worker_count: u64) -> Seq<
    Chunk,
> {
    spec_chunks_from(
        resume_offset as int,
        total_size as int,
        spec_chunk_size(total_size, worker_count),
    )
}

/// The planned chunk size as executable code.
pub fn chunk_size_for(total_size: u64, worker_count: u64) -> (size: u64)
    ensures
        size == spec_chunk_size(total_size, worker_count),
        1 <= size,
{
    let doubled: u64 = if worker_count > u64::MAX / 2 {
        u64::MAX
    } else {
        worker_count * 2
    };
    let target: u64 = if doubled < 2 {
        2
    } else {
        doubled
    };
    let raw = total_size / target;
    let lo = if raw > MIN_CHUNK_SIZE {
        raw
    } else {
        MIN_CHUNK_SIZE
    };
    if lo < MAX_CHUNK_SIZE {
        lo
    } else {
        MAX_CHUNK_SIZE
    }
}

/// The Chunk Planner: computes the ordered chunk sequence covering exactly
/// `[resume_offset, total_size)` (empty when the download is already complete).
pub fn plan_chunks(total_size: u64, resume_offset: u64, worker_count: u64) -> (chunks: Vec<Chunk>)
    ensures
        chunks@ == spec_plan_chunks(total_size, resume_offset, worker_count),
{
    let size = chunk_size_for(total_size, worker_count);
    let mut chunks: Vec<Chunk> = Vec::new();
    let mut start: u64 = resume_offset;
    proof {
        assert(chunks@ + spec_chunks_from(
            start as int,
            total_size as int,
            size as int,
        ) =~= spec_plan_chunks(total_size, resume_offset, worker_count));
    }
    while start < total_size
        invariant
            size == spec_chunk_size(total_size, worker_count),
            1 <= size,
            chunks@ + spec_chunks_from(start as int, total_size as int, size as int)
                == spec_plan_chunks(total_size, resume_offset, worker_count),
        decreases total_size - start,
    {
        let end = if total_size - start < size {
            total_size
        } else {
            start + size
        };
        proof {
            assert(spec_chunks_from(start as int, total_size as int, size as int) == seq![
                Chunk { start, end },
            ] + spec_chunks_from(end as int, total_size as int, size as int));
            assert(chunks@.push(Chunk { start, end }) + spec_chunks_from(
                end as int,
                total_size as int,
                size as int,
            ) =~= chunks@ + spec_chunks_from(start as int, total_size as int, size as int));
        }
        chunks.push(Chunk { start, end });
        start = end;
    }
    proof {
        assert(chunks@ + spec_chunks_from(start as int, total_size as int, size as int)
            =~= chunks@);
    }
    chunks
}

/// Structural facts about the tiling: at least one chunk, the first begins at
/// `start`, the last ends at `total`, every chunk is non-empty and at most
/// `size` long, and consecutive chunks meet exactly.
pub proof fn lemma_chunks_from_props(start: int, total: int, size: int)
    requires
        0 <= start < total <= u64::MAX,
        1 <= size,
    ensures
        ({
            let cs = spec_chunks_from(start, total, size);
            &&& cs.len() >= 1
            &&& cs[0].start == start
            &&& cs[cs.len() - 1].end == total
            &&& forall|i: int| 0 <= i < cs.len() ==> (#[trigger] cs[i]).start < cs[i].end
            &&& forall|i: int| 0 <= i < cs.len() ==> (#[trigger] cs[i]).end - cs[i].start <= size
            &&& forall|i: int|
                0 <= i < cs.len() - 1 ==> (#[trigger] cs[i]).end == cs[i + 1].start
        }),
    decreases total - start,
{
    let cs = spec_chunks_from(start, total, size);
    let end = if total - start < size {
        total
    } else {
        start + size
    };
    if end < total {
        lemma_chunks_from_props(end, total, size);
        let rest = spec_chunks_from(end, total, size);
        assert(cs == seq![Chunk { start: start as u64, end: end as u64 }] + rest);
        assert forall|i: int| 0 <= i < cs.len() - 1 implies (#[trigger] cs[i]).end == cs[i
            + 1].start by {
            if i >= 1 {
                assert(cs[i] == rest[i - 1]);
                assert(cs[i + 1] == rest[i]);
            } else {
                assert(cs[1] == rest[0]);
            }
        }
        assert forall|i: int| 0 <= i < cs.len() implies (#[trigger] cs[i]).start < cs[i].end
            && cs[i].end - cs[i].start <= size by {
            if i >= 1 {
                assert(cs[i] == rest[i - 1]);
            }
        }
    } else {
        assert(end == total);
        assert(spec_chunks_from(total, total, size) =~= Seq::<Chunk>::empty());
        assert(cs =~= seq![Chunk { start: start as u64, end: end as u64 }] + spec_chunks_from(
            end,
            total,
            size,
        ));
        assert(cs.len() == 1);
    }
}

/// In a contiguous, non-empty-chunk sequence, an earlier chunk ends no later
/// than a later one begins.
pub proof fn lemma_contiguous_ordered(cs: Seq<Chunk>, i: int, j: int)
    requires
        forall|k: int| 0 <= k < cs.len() ==> (#[trigger] cs[k]).start < cs[k].end,
        forall|k: int| 0 <= k < cs.len() - 1 ==> (#[trigger] cs[k]).end == cs[k + 1].start,
        0 <= i < j < cs.len(),
    ensures
        cs[i].end <= cs[j].start,
    decreases j - i,
{
    if j == i + 1 {
    } else {
        lemma_contiguous_ordered(cs, i, j - 1);
    }
}

/// Some chunk of `cs` contains byte position `b`.
pub open spec fn spec_covered(cs: Seq<Chunk>, b: int) -> bool {
    exists|i: int| 0 <= i < cs.len() && (#[trigger] cs[i]).start <= b < cs[i].end
}

/// Every byte of `[start, total)` lies in some chunk of the tiling.
proof fn lemma_chunks_from_covers(start: int, total: int, size: int, b: int)
    requires
        0 <= start <= b < total <= u64::MAX,
        1 <= size,
    ensures
        ({
            let cs = spec_chunks_from(start, total, size);
            exists|i: int| 0 <= i < cs.len() && (#[trigger] cs[i]).start <= b < cs[i].end
        }),
    decreases total - start,
{
    let cs = spec_chunks_from(start, total, size);
    let end = if total - start < size {
        total
    } else {
        start + size
    };
    if b < end {
        assert(cs[0].start <= b < cs[0].end);
    } else {
        lemma_chunks_from_covers(end, total, size, b);
        let rest = spec_chunks_from(end, total, size);
        let i = choose|i: int| 0 <= i < rest.len() && (#[trigger] rest[i]).start <= b < rest[i].end;
        assert(cs[i + 1] == rest[i]);
        assert(cs[i + 1].start <= b < cs[i + 1].end);
    }
}

/// Law: for every `(total_size, resume_offset, worker_count)` with
/// `resume_offset < total_size`, the planned chunks are pairwise
/// non-overlapping and their union is exactly `[resume_offset, total_size)`:
/// the first chunk begins at the resume offset, the last ends at the total
/// size, consecutive chunks meet exactly, an earlier chunk never reaches into
/// a later one, and every byte of the interval lies in some chunk.
pub proof fn lemma_plan_partition(total_size: u64, resume_offset: u64, worker_count: u64)
    requires
        resume_offset < total_size,
    ensures
        ({
            let cs = spec_plan_chunks(total_size, resume_offset, worker_count);
            &&& cs.len() >= 1
            &&& cs[0].start == resume_offset
            &&& cs[cs.len() - 1].end == total_size
            &&& forall|i: int| 0 <= i < cs.len() ==> (#[trigger] cs[i]).start < cs[i].end
            &&& forall|i: int|
                0 <= i < cs.len() - 1 ==> (#[trigger] cs[i]).end == cs[i + 1].start
            &&& forall|i: int, j: int|
                0 <= i < j < cs.len() ==> (#[trigger] cs[i]).end <= (#[trigger] cs[j]).start
            &&& forall|b: int|
                resume_offset <= b < total_size ==> #[trigger] spec_covered(cs, b)
        }),
{
    let size = spec_chunk_size(total_size, worker_count);
    let cs = spec_plan_chunks(total_size, resume_offset, worker_count);
    lemma_chunks_from_props(resume_offset as int, total_size as int, size);
    assert forall|i: int, j: int| 0 <= i < j < cs.len() implies (#[trigger] cs[i]).end <= (
    #[trigger] cs[j]).start by {
        lemma_contiguous_ordered(cs, i, j);
    }
    assert forall|b: int| resume_offset <= b < total_size implies #[trigger] spec_covered(
        cs,
        b,
    ) by {
        lemma_chunks_from_covers(resume_offset as int, total_size as int, size, b);
    }
}

/// Law: planning is deterministic — identical inputs yield the identical
/// chunk sequence, so re-planning a download never changes the ranges.
pub proof fn lemma_plan_deterministic(
    total_a: u64,
    resume_a: u64,
    workers_a: u64,
    total_b: u64,
    resume_b: u64,
    workers_b: u64,
)
    requires
        total_a == total_b,
        resume_a == resume_b,
        workers_a == workers_b,
    ensures
        spec_plan_chunks(total_a, resume_a, workers_a) == spec_plan_chunks(
            total_b,
            resume_b,
            workers_b,
        ),
{
}

} // verus!
