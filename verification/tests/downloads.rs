use kget::chunk::Chunk;
use kget::errors::{ChunkFailure, DownloadError};
use kget::flow::{plan_fetch, run_download, run_parallel, run_single_stream, verify_size, FetchPlan};
use kget::probe::{interpret_probe, RangeCapability};
use kget::progress::ProgressState;
use kget::sink::MemorySink;
use kget::worker::{fetch_chunk, retry_decision, AttemptOutcome, RetryDecision};

fn sample_bytes(n: usize) -> Vec<u8> {
    let mut v = Vec::with_capacity(n);
    for i in 0..n {
        v.push((i % 251) as u8);
    }
    v
}

#[test]
fn scenario_a_parallel_fetch_fills_the_file() {
    // total 10_000_000, fresh start, 4 workers, ranges supported
    let remote = sample_bytes(10_000_000);
    let mut sink = MemorySink::preallocate(10_000_000);
    let mut progress = ProgressState::new(10_000_000);
    let r = run_download(&remote, true, 0, 4, &mut sink, &mut progress);
    assert!(r.is_ok());
    assert_eq!(progress.bytes_done, 10_000_000);
    let out = sink.into_bytes();
    assert_eq!(out.len(), 10_000_000);
    assert_eq!(out, remote);
}

#[test]
fn scenario_b_already_complete_skips_fetching() {
    // resume offset equals the total: nothing fetched, straight to verifying
    let remote = sample_bytes(1_000_000);
    let mut sink = MemorySink::preallocate(1_000_000);
    let mut progress = ProgressState::new(1_000_000);
    let r = run_download(&remote, true, 1_000_000, 4, &mut sink, &mut progress);
    assert!(r.is_ok());
    assert_eq!(progress.bytes_done, 0);
    assert_eq!(sink.len(), 1_000_000);
}

#[test]
fn scenario_c_single_stream_fallback() {
    // no range support, fresh start: the fallback streams the whole body
    let remote = sample_bytes(500_000);
    let mut sink = MemorySink::preallocate(500_000);
    let mut progress = ProgressState::new(500_000);
    let r = run_download(&remote, false, 0, 4, &mut sink, &mut progress);
    assert!(r.is_ok());
    assert_eq!(progress.bytes_done, 500_000);
    assert_eq!(sink.into_bytes(), remote);
}

#[test]
fn no_resume_on_non_range_server() {
    let remote = sample_bytes(500_000);
    let mut sink = MemorySink::preallocate(500_000);
    let mut progress = ProgressState::new(500_000);
    let r = run_download(&remote, false, 100, 4, &mut sink, &mut progress);
    assert!(matches!(r, Err(DownloadError::ResumeUnsupported)));
    // no byte of the body was fetched
    assert_eq!(progress.bytes_done, 0);
    for i in [0usize, 1, 499_999] {
        assert_eq!(sink.byte_at(i), 0);
    }
}

#[test]
fn oversized_local_file_rejected() {
    let remote = sample_bytes(1000);
    let mut sink = MemorySink::preallocate(1000);
    let mut progress = ProgressState::new(1000);
    let r = run_download(&remote, true, 2000, 4, &mut sink, &mut progress);
    assert!(matches!(
        r,
        Err(DownloadError::SizeMismatch { expected: 1000, actual: 2000 })
    ));
    assert_eq!(progress.bytes_done, 0);
}

#[test]
fn plan_fetch_decides_each_route() {
    let ranged = RangeCapability { total_size: 10_000_000, supports_ranges: true };
    match plan_fetch(ranged, 0, 4) {
        Ok(FetchPlan::Parallel(cs)) => assert_eq!(cs.len(), 8),
        _ => panic!("expected a parallel plan"),
    }
    match plan_fetch(ranged, 10_000_000, 4) {
        Ok(FetchPlan::AlreadyComplete) => {}
        _ => panic!("expected already-complete"),
    }
    let plain = RangeCapability { total_size: 10_000_000, supports_ranges: false };
    match plan_fetch(plain, 0, 4) {
        Ok(FetchPlan::SingleStream) => {}
        _ => panic!("expected the single-stream fallback"),
    }
    assert!(matches!(
        plan_fetch(plain, 1, 4),
        Err(DownloadError::ResumeUnsupported)
    ));
    assert!(matches!(
        plan_fetch(ranged, 10_000_001, 4),
        Err(DownloadError::SizeMismatch { expected: 10_000_000, actual: 10_000_001 })
    ));
}

#[test]
fn retry_exhaustion_surfaces_the_range() {
    // three consecutive transport errors fail the chunk with its own range
    let remote = sample_bytes(4096);
    let chunk = Chunk { start: 1024, end: 2048 };
    let outcomes = vec![
        AttemptOutcome::TransportError,
        AttemptOutcome::TransportError,
        AttemptOutcome::TransportError,
    ];
    let mut sink = MemorySink::preallocate(4096);
    let mut progress = ProgressState::new(4096);
    let r = fetch_chunk(&remote, chunk, &outcomes, &mut sink, &mut progress);
    match r {
        Err(DownloadError::Chunk { range, cause }) => {
            assert_eq!(range.start, 1024);
            assert_eq!(range.end, 2048);
            assert_eq!(cause, ChunkFailure::Transport);
        }
        _ => panic!("expected a chunk failure"),
    }
    assert_eq!(progress.bytes_done, 0);
}

#[test]
fn range_not_satisfiable_on_final_attempt_is_fatal() {
    let remote = sample_bytes(100);
    let chunk = Chunk { start: 0, end: 100 };
    let outcomes = vec![
        AttemptOutcome::TransportError,
        AttemptOutcome::RangeNotSatisfiable,
        AttemptOutcome::RangeNotSatisfiable,
    ];
    let mut sink = MemorySink::preallocate(100);
    let mut progress = ProgressState::new(100);
    let r = fetch_chunk(&remote, chunk, &outcomes, &mut sink, &mut progress);
    assert!(matches!(
        r,
        Err(DownloadError::Chunk { cause: ChunkFailure::RangeNotSatisfiable, .. })
    ));
}

#[test]
fn a_late_success_still_fetches_the_chunk() {
    let remote = sample_bytes(100);
    let chunk = Chunk { start: 10, end: 90 };
    let outcomes = vec![
        AttemptOutcome::TransportError,
        AttemptOutcome::TransportError,
        AttemptOutcome::Fetched,
    ];
    let mut sink = MemorySink::preallocate(100);
    let mut progress = ProgressState::new(100);
    let r = fetch_chunk(&remote, chunk, &outcomes, &mut sink, &mut progress);
    assert!(r.is_ok());
    assert_eq!(progress.bytes_done, 80);
    for i in 10..90 {
        assert_eq!(sink.byte_at(i), remote[i]);
    }
    assert_eq!(sink.byte_at(0), 0);
    assert_eq!(sink.byte_at(99), 0);
}

#[test]
fn orchestrator_surfaces_the_first_failure_and_stops() {
    let remote = sample_bytes(300);
    let chunks = vec![
        Chunk { start: 0, end: 100 },
        Chunk { start: 100, end: 200 },
        Chunk { start: 200, end: 300 },
    ];
    let scripts = vec![
        vec![AttemptOutcome::Fetched],
        vec![
            AttemptOutcome::TransportError,
            AttemptOutcome::TransportError,
            AttemptOutcome::TransportError,
        ],
        vec![AttemptOutcome::Fetched],
    ];
    let mut sink = MemorySink::preallocate(300);
    let mut progress = ProgressState::new(300);
    let r = run_parallel(&remote, &chunks, &scripts, &mut sink, &mut progress);
    match r {
        Err(DownloadError::Chunk { range, .. }) => {
            assert_eq!(range.start, 100);
            assert_eq!(range.end, 200);
        }
        _ => panic!("expected the second chunk to fail the download"),
    }
    // the first chunk landed, the failed and never-started ones did not
    assert_eq!(progress.bytes_done, 100);
    assert_eq!(sink.byte_at(50), remote[50]);
    assert_eq!(sink.byte_at(150), 0);
    assert_eq!(sink.byte_at(250), 0);
}

#[test]
fn completion_accounting_on_resume() {
    // after a successful parallel fetch, bytes_done == total - resume
    let remote = sample_bytes(3_000_000);
    let mut sink = MemorySink::preallocate(3_000_000);
    let mut progress = ProgressState::new(3_000_000);
    let r = run_download(&remote, true, 1_234_567, 4, &mut sink, &mut progress);
    assert!(r.is_ok());
    assert_eq!(progress.bytes_done, 3_000_000 - 1_234_567);
    // bytes before the resume offset stay as preallocated
    assert_eq!(sink.byte_at(0), 0);
    assert_eq!(sink.byte_at(2_999_999), remote[2_999_999]);
}

#[test]
fn single_stream_writes_every_byte() {
    let remote = sample_bytes(70_000);
    let mut sink = MemorySink::preallocate(70_000);
    let mut progress = ProgressState::new(70_000);
    run_single_stream(&remote, &mut sink, &mut progress);
    assert_eq!(progress.bytes_done, 70_000);
    assert_eq!(sink.into_bytes(), remote);
}

#[test]
fn verify_size_accepts_only_the_exact_total() {
    assert!(verify_size(1000, 1000).is_ok());
    assert!(matches!(
        verify_size(999, 1000),
        Err(DownloadError::SizeMismatch { expected: 1000, actual: 999 })
    ));
}

#[test]
fn retry_decisions_follow_the_linear_backoff() {
    assert_eq!(
        retry_decision(0, AttemptOutcome::Fetched),
        RetryDecision::Done
    );
    assert_eq!(
        retry_decision(0, AttemptOutcome::TransportError),
        RetryDecision::RetryAfter(250)
    );
    assert_eq!(
        retry_decision(1, AttemptOutcome::RangeNotSatisfiable),
        RetryDecision::RetryAfter(500)
    );
    assert_eq!(
        retry_decision(2, AttemptOutcome::TransportError),
        RetryDecision::Fail(ChunkFailure::Transport)
    );
    assert_eq!(
        retry_decision(2, AttemptOutcome::RangeNotSatisfiable),
        RetryDecision::Fail(ChunkFailure::RangeNotSatisfiable)
    );
}

#[test]
fn probe_interpretation() {
    let ok = interpret_probe(Some("1234"), Some("bytes")).unwrap();
    assert_eq!(ok.total_size, 1234);
    assert!(ok.supports_ranges);
    let cased = interpret_probe(Some("5"), Some("ByTeS")).unwrap();
    assert!(cased.supports_ranges);
    let none = interpret_probe(Some("5"), None).unwrap();
    assert!(!none.supports_ranges);
    let other = interpret_probe(Some("5"), Some("none")).unwrap();
    assert!(!other.supports_ranges);
    assert!(matches!(
        interpret_probe(None, Some("bytes")),
        Err(DownloadError::Probe)
    ));
    assert!(matches!(
        interpret_probe(Some(""), None),
        Err(DownloadError::Probe)
    ));
    assert!(matches!(
        interpret_probe(Some("12x"), None),
        Err(DownloadError::Probe)
    ));
    assert!(matches!(
        interpret_probe(Some("18446744073709551616"), None),
        Err(DownloadError::Probe)
    ));
}

#[test]
fn progress_state_records_monotonically() {
    let mut p = ProgressState::new(100);
    assert!(!p.is_complete());
    p.record(40);
    assert_eq!(p.bytes_done, 40);
    p.record(60);
    assert!(p.is_complete());
}

#[test]
fn sink_positional_writes_disturb_nothing_else() {
    let mut sink = MemorySink::preallocate(10);
    sink.write_at(3, &[7, 8, 9]);
    let out = sink.into_bytes();
    assert_eq!(out, vec![0, 0, 0, 7, 8, 9, 0, 0, 0, 0]);
}

#[test]
fn error_messages_name_the_facts() {
    let e = DownloadError::SizeMismatch { expected: 10, actual: 20 };
    assert_eq!(
        e.message(),
        "File size mismatch: expected 10 bytes, got 20 bytes"
    );
    let c = DownloadError::Chunk {
        range: Chunk { start: 0, end: 100 },
        cause: ChunkFailure::Transport,
    };
    assert_eq!(c.message(), "Failed to download chunk 0-100 after retries");
    let n = DownloadError::Chunk {
        range: Chunk { start: 5, end: 6 },
        cause: ChunkFailure::RangeNotSatisfiable,
    };
    assert_eq!(
        n.message(),
        "Failed to download chunk 5-6: range not satisfiable"
    );
    assert_eq!(
        DownloadError::Probe.message(),
        "Could not determine file size"
    );
    assert_eq!(
        DownloadError::ResumeUnsupported.message(),
        "Server does not support range; cannot resume partial file"
    );
}
