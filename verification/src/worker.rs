//! The Chunk Worker: fetches one byte range, streams it to the sink at the
//! correct offset in bounded reads, and retries transient failures a bounded
//! number of times with linear backoff. The decisions live here, fully
//! verified; performing a real network request is the caller's job, answered
//! back as an `AttemptOutcome`.
use vstd::prelude::*;
use crate::chunk::Chunk;
use crate::errors::{ChunkFailure, DownloadError};
use crate::progress::ProgressState;
use crate::sink::MemorySink;

verus! {

/// Attempts allowed per chunk.
pub const MAX_RETRIES: u64 = 3;

/// Linear backoff unit: retry number `n` (1-based) waits `n` times this many
/// milliseconds.
pub const BACKOFF_UNIT_MS: u64 = 250;

/// Size of one bounded read while streaming a chunk body, keeping peak
/// memory per worker small.
pub const READ_BUFFER_SIZE: usize = 16384;

/// What one fetch attempt came back with, as seen by the retry policy.
#[derive(Debug, Clone, Copy, PartialEq, Eq, Structural)]
pub enum AttemptOutcome {
    /// The range request succeeded and the body was streamed completely.
    Fetched,
    /// A network or transport failure.
    TransportError,
    /// A range-not-satisfiable response: the server's view of the resource
    /// no longer matches the planned range.
    RangeNotSatisfiable,
}

/// What the worker does after an attempt.
#[derive(Debug, Clone, Copy, PartialEq, Eq, Structural)]
pub enum RetryDecision {
    /// The chunk is done.
    Done,
    /// Sleep this many milliseconds, then try again.
    RetryAfter(u64),
    /// Give up; the whole download fails with this cause.
    Fail(ChunkFailure),
}

/// The retry policy for one chunk: a failed attempt is retried, after a
/// linear backoff, until `MAX_RETRIES` attempts are spent; the last failure
/// is final, and a range-not-satisfiable answer on the final attempt keeps
/// its own cause. `attempt` is the 0-based index of the attempt just made.
pub fn retry_decision(attempt: u64, outcome: AttemptOutcome) -> (r: RetryDecision)
    requires
        attempt < MAX_RETRIES,
    ensures
        outcome == AttemptOutcome::Fetched ==> r == RetryDecision::Done,
        outcome != AttemptOutcome::Fetched && attempt + 1 < MAX_RETRIES ==> r
            == RetryDecision::RetryAfter((BACKOFF_UNIT_MS * (attempt + 1)) as u64),
        outcome == AttemptOutcome::TransportError && attempt + 1 == MAX_RETRIES ==> r
            == RetryDecision::Fail(ChunkFailure::Transport),
        outcome == AttemptOutcome::RangeNotSatisfiable && attempt + 1 == MAX_RETRIES ==> r
            == RetryDecision::Fail(ChunkFailure::RangeNotSatisfiable),
{
    match outcome {
        AttemptOutcome::Fetched => RetryDecision::Done,
        AttemptOutcome::TransportError => {
            if attempt + 1 < MAX_RETRIES {
                RetryDecision::RetryAfter(BACKOFF_UNIT_MS * (attempt + 1))
            } else {
                RetryDecision::Fail(ChunkFailure::Transport)
            }
        },
        AttemptOutcome::RangeNotSatisfiable => {
            if attempt + 1 < MAX_RETRIES {
                RetryDecision::RetryAfter(BACKOFF_UNIT_MS * (attempt + 1))
            } else {
                RetryDecision::Fail(ChunkFailure::RangeNotSatisfiable)
            }
        },
    }
}

/// Stream the body of `chunk` — the bytes `remote[chunk.start .. chunk.end)`
/// — into the sink in bounded reads, writing each read at its offset and
/// recording progress after each write.
pub fn stream_chunk_body(
    remote: &Vec<u8>,
    chunk: Chunk,
    sink: &mut MemorySink,
    progress: &mut ProgressState,
)
    requires
        chunk.start <= chunk.end,
        chunk.end <= remote@.len(),
        old(sink)@.len() == remote@.len(),
        old(progress).bytes_done + (chunk.end - chunk.start) <= old(progress).total,
    ensures
        final(sink)@.len() == old(sink)@.len(),
        forall|i: int| chunk.start <= i < chunk.end ==> final(sink)@[i] == remote@[i],
        forall|i: int|
            0 <= i < old(sink)@.len() && !(chunk.start <= i < chunk.end) ==> final(sink)@[i]
                == old(sink)@[i],
        final(progress).bytes_done == old(progress).bytes_done + (chunk.end - chunk.start),
        final(progress).total == old(progress).total,
{
    let total_len = remote.len();
    let start: usize = chunk.start as usize;
    let end: usize = chunk.end as usize;
    let mut pos: usize = start;
    while pos < end
        invariant
            start <= pos <= end <= total_len,
            total_len == remote@.len(),
            start == chunk.start,
            end == chunk.end,
            sink@.len() == old(sink)@.len(),
            old(sink)@.len() == remote@.len(),
            forall|i: int| start <= i < pos ==> sink@[i] == remote@[i],
            forall|i: int|
                0 <= i < sink@.len() && !(start <= i < pos) ==> sink@[i] == old(sink)@[i],
            progress.bytes_done == old(progress).bytes_done + (pos - start),
            progress.total == old(progress).total,
            old(progress).bytes_done + (end - start) <= old(progress).total,
        decreases end - pos,
    {
        let n: usize = if end - pos < READ_BUFFER_SIZE {
            end - pos
        } else {
            READ_BUFFER_SIZE
        };
        // one bounded read of the response body
        let mut buf: Vec<u8> = Vec::new();
        let mut j: usize = 0;
        while j < n
            invariant
                0 <= j <= n,
                pos + n <= total_len,
                total_len == remote@.len(),
                buf@.len() == j,
                forall|k: int| 0 <= k < j ==> buf@[k] == remote@[pos + k],
            decreases n - j,
        {
            buf.push(remote[pos + j]);
            j = j + 1;
        }
        sink.write_at(pos, buf.as_slice());
        progress.record(n as u64);
        pos = pos + n;
    }
}

/// The outcome answering attempt `k`; a script that runs out answers with
/// transport errors.
pub open spec fn spec_outcome_at(outcomes: Seq<AttemptOutcome>, k: int) -> AttemptOutcome {
    if 0 <= k < outcomes.len() {
        outcomes[k]
    } else {
        AttemptOutcome::TransportError
    }
}

/// Some attempt within the retry budget succeeds.
pub open spec fn spec_any_success(outcomes: Seq<AttemptOutcome>) -> bool {
    exists|k: int|
        0 <= k < MAX_RETRIES && #[trigger] spec_outcome_at(outcomes, k) == AttemptOutcome::Fetched
}

/// The cause a chunk fails with when every attempt failed: whatever the
/// final attempt came back with.
pub open spec fn spec_final_cause(outcomes: Seq<AttemptOutcome>) -> ChunkFailure {
    if spec_outcome_at(outcomes, MAX_RETRIES - 1) == AttemptOutcome::RangeNotSatisfiable {
        ChunkFailure::RangeNotSatisfiable
    } else {
        ChunkFailure::Transport
    }
}

/// One chunk's full fetch-and-retry lifecycle, driven by the outcomes of its
/// attempts (entry `k` of `outcomes` answers attempt `k`). On the first
/// successful attempt the body is streamed into the sink; when every attempt
/// within the budget fails, the chunk fails with its own range and the final
/// attempt's cause, and neither the sink nor the progress is touched.
pub fn fetch_chunk(
    remote: &Vec<u8>,
    chunk: Chunk,
    outcomes: &Vec<AttemptOutcome>,
    sink: &mut MemorySink,
    progress: &mut ProgressState,
) -> (r: Result<(), DownloadError>)
    requires
        chunk.start <= chunk.end,
        chunk.end <= remote@.len(),
        old(sink)@.len() == remote@.len(),
        old(progress).bytes_done + (chunk.end - chunk.start) <= old(progress).total,
    ensures
        r is Ok <==> spec_any_success(outcomes@),
        r matches Err(e) ==> {
            &&& e == (DownloadError::Chunk { range: chunk, cause: spec_final_cause(outcomes@) })
            &&& final(sink)@ == old(sink)@
            &&& *final(progress) == *old(progress)
        },
        r is Ok ==> {
            &&& final(sink)@.len() == old(sink)@.len()
            &&& (forall|i: int| chunk.start <= i < chunk.end ==> final(sink)@[i] == remote@[i])
            &&& (forall|i: int|
                0 <= i < old(sink)@.len() && !(chunk.start <= i < chunk.end) ==> final(sink)@[i]
                    == old(sink)@[i])
            &&& final(progress).bytes_done == old(progress).bytes_done + (chunk.end - chunk.start)
            &&& final(progress).total == old(progress).total
        },
{
    let mut attempt: u64 = 0;
    while attempt < MAX_RETRIES
        invariant
            0 <= attempt <= MAX_RETRIES,
            forall|k: int|
                0 <= k < attempt ==> #[trigger] spec_outcome_at(outcomes@, k)
                    != AttemptOutcome::Fetched,
            sink@ == old(sink)@,
            *progress == *old(progress),
            chunk.start <= chunk.end,
            chunk.end <= remote@.len(),
            old(sink)@.len() == remote@.len(),
            old(progress).bytes_done + (chunk.end - chunk.start) <= old(progress).total,
        decreases MAX_RETRIES - attempt,
    {
        let outcome = if (attempt as usize) < outcomes.len() {
            outcomes[attempt as usize]
        } else {
            AttemptOutcome::TransportError
        };
        assert(outcome == spec_outcome_at(outcomes@, attempt as int));
        match retry_decision(attempt, outcome) {
            RetryDecision::Done => {
                stream_chunk_body(remote, chunk, sink, progress);
                return Ok(());
            },
            RetryDecision::RetryAfter(_delay_ms) => {
                // the real worker sleeps here; the decision alone is modelled
            },
            RetryDecision::Fail(cause) => {
                return Err(DownloadError::Chunk { range: chunk, cause });
            },
        }
        attempt = attempt + 1;
    }
    let last = if ((MAX_RETRIES - 1) as usize) < outcomes.len() {
        outcomes[(MAX_RETRIES - 1) as usize]
    } else {
        AttemptOutcome::TransportError
    };
    let cause = if last == AttemptOutcome::RangeNotSatisfiable {
        ChunkFailure::RangeNotSatisfiable
    } else {
        ChunkFailure::Transport
    };
    Err(DownloadError::Chunk { range: chunk, cause })
}

} // verus!
