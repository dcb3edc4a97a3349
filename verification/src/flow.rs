//! The top-level download state machine: probing leads to planning, planning
//! to a parallel fetch, a single-stream fallback, or straight to
//! verification, and any failure surfaces as one concrete error. Also the
//! Parallel Orchestrator and Single-Stream Fallback over simulated
//! transports, with byte-exact contracts.
use vstd::prelude::*;
use crate::chunk::{
    lemma_contiguous_ordered, lemma_plan_partition, plan_chunks, spec_plan_chunks, Chunk,
};
use crate::errors::DownloadError;
use crate::probe::RangeCapability;
use crate::progress::ProgressState;
use crate::sink::MemorySink;
use crate::worker::{
    fetch_chunk, spec_any_success, spec_final_cause, spec_outcome_at, stream_chunk_body,
    AttemptOutcome,
};

verus! {

/// What the planner decided to do after probing.
#[derive(Debug)]
pub enum FetchPlan {
    /// Nothing left to fetch: the download is already complete; go straight
    /// to verification.
    AlreadyComplete,
    /// Fetch these chunks concurrently with range requests.
    Parallel(Vec<Chunk>),
    /// Stream the whole body sequentially from offset zero.
    SingleStream,
}

/// Decide how to fetch, given the probed capability and the local state.
/// A local file longer than the remote total is stale or corrupt and aborts;
/// a partial file cannot be resumed without range support; without range
/// support a fresh download falls back to a single stream; an already
/// complete file skips fetching entirely.
pub fn plan_fetch(cap: RangeCapability, resume_offset: u64, worker_count: u64) -> (r: Result<
    FetchPlan,
    DownloadError,
>)
    ensures
        resume_offset > cap.total_size ==> r == Err::<FetchPlan, DownloadError>(
            DownloadError::SizeMismatch { expected: cap.total_size, actual: resume_offset },
        ),
        resume_offset <= cap.total_size && !cap.supports_ranges && resume_offset > 0 ==> r
            == Err::<FetchPlan, DownloadError>(DownloadError::ResumeUnsupported),
        !cap.supports_ranges && resume_offset == 0 ==> (r matches Ok(p) && p is SingleStream),
        cap.supports_ranges && resume_offset == cap.total_size ==> (r matches Ok(p)
            && p is AlreadyComplete),
        cap.supports_ranges && resume_offset < cap.total_size ==> (r matches Ok(p) && (
        p matches FetchPlan::Parallel(cs) && cs@ == spec_plan_chunks(
            cap.total_size,
            resume_offset,
            worker_count,
        ))),
{
    if resume_offset > cap.total_size {
        return Err(
            DownloadError::SizeMismatch { expected: cap.total_size, actual: resume_offset },
        );
    }
    if !cap.supports_ranges {
        if resume_offset > 0 {
            return Err(DownloadError::ResumeUnsupported);
        }
        return Ok(FetchPlan::SingleStream);
    }
    if resume_offset == cap.total_size {
        return Ok(FetchPlan::AlreadyComplete);
    }
    Ok(FetchPlan::Parallel(plan_chunks(cap.total_size, resume_offset, worker_count)))
}

/// The Verifying phase: the size on disk must equal the authoritative total.
pub fn verify_size(actual: u64, expected: u64) -> (r: Result<(), DownloadError>)
    ensures
        r is Ok <==> actual == expected,
        r matches Err(e) ==> e == (DownloadError::SizeMismatch { expected, actual }),
{
    if actual == expected {
        Ok(())
    } else {
        Err(DownloadError::SizeMismatch { expected, actual })
    }
}

/// The Single-Stream Fallback transfer: stream the whole body sequentially
/// into the sink from offset zero, updating progress incrementally.
pub fn run_single_stream(remote: &Vec<u8>, sink: &mut MemorySink, progress: &mut ProgressState)
    requires
        old(sink)@.len() == remote@.len(),
        old(progress).bytes_done + remote@.len() <= old(progress).total,
    ensures
        final(sink)@ == remote@,
        final(progress).bytes_done == old(progress).bytes_done + remote@.len(),
        final(progress).total == old(progress).total,
{
    let whole = Chunk { start: 0, end: remote.len() as u64 };
    stream_chunk_body(remote, whole, sink, progress);
    proof {
        assert(sink@ =~= remote@);
    }
}

/// The first chunk index at or after `from` whose attempt script never
/// succeeds within the retry budget.
pub open spec fn spec_first_failure(scripts: Seq<Vec<AttemptOutcome>>, from: int) -> Option<int>
    decreases scripts.len() - from,
{
    if from < 0 || from >= scripts.len() {
        None
    } else if !spec_any_success(scripts[from]@) {
        Some(from)
    } else {
        spec_first_failure(scripts, from + 1)
    }
}

/// The position up to which the first `k` chunks reach.
pub open spec fn spec_done_until(cs: Seq<Chunk>, k: int) -> int {
    if k == 0 {
        cs[0].start as int
    } else {
        cs[k - 1].end as int
    }
}

/// The Parallel Orchestrator: every chunk is attempted exactly once, in
/// order, each through the bounded-retry worker; the first chunk to exhaust
/// its retries fails the whole download with its own range and cause, and no
/// later chunk is started. On success the whole planned span holds the
/// remote bytes and the progress equals the span exactly. `scripts[i]`
/// answers the attempts of `chunks[i]`.
pub fn run_parallel(
    remote: &Vec<u8>,
    chunks: &Vec<Chunk>,
    scripts: &Vec<Vec<AttemptOutcome>>,
    sink: &mut MemorySink,
    progress: &mut ProgressState,
) -> (r: Result<(), DownloadError>)
    requires
        chunks@.len() == scripts@.len(),
        forall|i: int|
            0 <= i < chunks@.len() ==> (#[trigger] chunks@[i]).start < chunks@[i].end
                && chunks@[i].end <= remote@.len(),
        forall|i: int|
            0 <= i < chunks@.len() - 1 ==> (#[trigger] chunks@[i]).end == chunks@[i + 1].start,
        old(sink)@.len() == remote@.len(),
        chunks@.len() > 0 ==> old(progress).bytes_done + (chunks@.last().end
            - chunks@[0].start) <= old(progress).total,
    ensures
        r is Ok <==> spec_first_failure(scripts@, 0) is None,
        final(sink)@.len() == old(sink)@.len(),
        final(progress).total == old(progress).total,
        chunks@.len() == 0 ==> final(sink)@ == old(sink)@ && *final(progress) == *old(progress),
        r is Ok && chunks@.len() > 0 ==> {
            &&& forall|i: int|
                chunks@[0].start <= i < chunks@.last().end ==> final(sink)@[i] == remote@[i]
            &&& forall|i: int|
                0 <= i < old(sink)@.len() && !(chunks@[0].start <= i < chunks@.last().end)
                    ==> final(sink)@[i] == old(sink)@[i]
            &&& final(progress).bytes_done == old(progress).bytes_done + (chunks@.last().end
                - chunks@[0].start)
        },
        r matches Err(e) ==> (spec_first_failure(scripts@, 0) matches Some(fi) && {
            &&& e == (DownloadError::Chunk {
                range: chunks@[fi],
                cause: spec_final_cause(scripts@[fi]@),
            })
            &&& forall|i: int|
                chunks@[0].start <= i < chunks@[fi].start ==> final(sink)@[i] == remote@[i]
            &&& forall|i: int|
                0 <= i < old(sink)@.len() && !(chunks@[0].start <= i < chunks@[fi].start)
                    ==> final(sink)@[i] == old(sink)@[i]
            &&& final(progress).bytes_done == old(progress).bytes_done + (chunks@[fi].start
                - chunks@[0].start)
        }),
{
    let n = chunks.len();
    if n == 0 {
        return Ok(());
    }
    let mut k: usize = 0;
    while k < n
        invariant
            n == chunks@.len(),
            n == scripts@.len(),
            0 <= k <= n,
            n > 0,
            chunks@[0].start <= spec_done_until(chunks@, k as int),
            forall|i: int|
                0 <= i < chunks@.len() ==> (#[trigger] chunks@[i]).start < chunks@[i].end
                    && chunks@[i].end <= remote@.len(),
            forall|i: int|
                0 <= i < chunks@.len() - 1 ==> (#[trigger] chunks@[i]).end == chunks@[i
                    + 1].start,
            old(sink)@.len() == remote@.len(),
            old(progress).bytes_done + (chunks@.last().end - chunks@[0].start) <= old(
                progress,
            ).total,
            spec_first_failure(scripts@, 0) == spec_first_failure(scripts@, k as int),
            sink@.len() == old(sink)@.len(),
            progress.total == old(progress).total,
            forall|i: int|
                chunks@[0].start <= i < spec_done_until(chunks@, k as int) ==> sink@[i]
                    == remote@[i],
            forall|i: int|
                0 <= i < sink@.len() && !(chunks@[0].start <= i < spec_done_until(
                    chunks@,
                    k as int,
                )) ==> sink@[i] == old(sink)@[i],
            progress.bytes_done == old(progress).bytes_done + (spec_done_until(chunks@, k as int)
                - chunks@[0].start),
        decreases n - k,
    {
        let chunk = chunks[k];
        proof {
            assert(chunk.start == spec_done_until(chunks@, k as int));
            if k as int == n - 1 {
                assert(chunk.end == chunks@.last().end);
            } else {
                lemma_contiguous_ordered(chunks@, k as int, n - 1);
                assert(chunk.end <= chunks@.last().start < chunks@.last().end);
            }
        }
        match fetch_chunk(remote, chunk, &scripts[k], sink, progress) {
            Ok(()) => {
                proof {
                    assert(spec_first_failure(scripts@, k as int) == spec_first_failure(
                        scripts@,
                        k as int + 1,
                    ));
                }
            },
            Err(e) => {
                proof {
                    assert(spec_first_failure(scripts@, k as int) == Some(k as int));
                }
                return Err(e);
            },
        }
        k = k + 1;
    }
    Ok(())
}

proof fn lemma_all_succeed_no_failure(scripts: Seq<Vec<AttemptOutcome>>, from: int)
    requires
        0 <= from <= scripts.len(),
        forall|i: int| from <= i < scripts.len() ==> spec_any_success(#[trigger] scripts[i]@),
    ensures
        spec_first_failure(scripts, from) is None,
    decreases scripts.len() - from,
{
    if from < scripts.len() {
        lemma_all_succeed_no_failure(scripts, from + 1)
    }
}

/// One whole download against an in-memory transport whose requests all
/// succeed: probe capability in hand, plan, fetch in parallel or fall back
/// to a single stream, then verify the final size. The bytes of `remote`
/// stand for what the server would serve; a real invocation drives the same
/// planner, worker and verifier from its network loop.
pub fn run_download(
    remote: &Vec<u8>,
    supports_ranges: bool,
    resume_offset: u64,
    worker_count: u64,
    sink: &mut MemorySink,
    progress: &mut ProgressState,
) -> (r: Result<(), DownloadError>)
    requires
        old(sink)@.len() == remote@.len(),
        old(progress).bytes_done == 0,
        old(progress).total == remote@.len(),
    ensures
        final(sink)@.len() == old(sink)@.len(),
        resume_offset > remote@.len() ==> r == Err::<(), DownloadError>(
            DownloadError::SizeMismatch {
                expected: remote@.len() as u64,
                actual: resume_offset,
            },
        ) && final(sink)@ == old(sink)@ && *final(progress) == *old(progress),
        resume_offset <= remote@.len() && !supports_ranges && resume_offset > 0 ==> r == Err::<
            (),
            DownloadError,
        >(DownloadError::ResumeUnsupported) && final(sink)@ == old(sink)@ && *final(progress)
            == *old(progress),
        !supports_ranges && resume_offset == 0 ==> r is Ok && final(sink)@ == remote@
            && final(progress).bytes_done == remote@.len(),
        supports_ranges && resume_offset == remote@.len() ==> r is Ok
            && final(sink)@ == old(sink)@ && final(progress).bytes_done == 0,
        supports_ranges && resume_offset < remote@.len() ==> r is Ok && {
            &&& forall|i: int|
                resume_offset <= i < remote@.len() ==> final(sink)@[i] == remote@[i]
            &&& forall|i: int| 0 <= i < resume_offset ==> final(sink)@[i] == old(sink)@[i]
            &&& final(progress).bytes_done == remote@.len() - resume_offset
        },
{
    let total = sink.len() as u64;
    let cap = RangeCapability { total_size: total, supports_ranges };
    let plan = match plan_fetch(cap, resume_offset, worker_count) {
        Ok(p) => p,
        Err(e) => {
            return Err(e);
        },
    };
    match plan {
        FetchPlan::AlreadyComplete => verify_size(sink.len() as u64, total),
        FetchPlan::SingleStream => {
            run_single_stream(remote, sink, progress);
            verify_size(sink.len() as u64, total)
        },
        FetchPlan::Parallel(chunks) => {
            proof {
                lemma_plan_partition(total, resume_offset, worker_count);
            }
            let n = chunks.len();
            let mut scripts: Vec<Vec<AttemptOutcome>> = Vec::new();
            let mut j: usize = 0;
            while j < n
                invariant
                    0 <= j <= n,
                    scripts@.len() == j,
                    forall|i: int|
                        0 <= i < j ==> spec_any_success(#[trigger] scripts@[i]@),
                decreases n - j,
            {
                let mut script: Vec<AttemptOutcome> = Vec::new();
                script.push(AttemptOutcome::Fetched);
                proof {
                    assert(spec_outcome_at(script@, 0) == AttemptOutcome::Fetched);
                    assert(spec_any_success(script@));
                }
                scripts.push(script);
                j = j + 1;
            }
            proof {
                lemma_all_succeed_no_failure(scripts@, 0);
            }
            match run_parallel(remote, &chunks, &scripts, sink, progress) {
                Ok(()) => verify_size(sink.len() as u64, total),
                Err(e) => Err(e),
            }
        },
    }
}

} // verus!
