use kget::chunk::{chunk_size_for, plan_chunks, MAX_CHUNK_SIZE, MIN_CHUNK_SIZE};

#[test]
fn scenario_ten_megabytes_four_workers() {
    // 10 MB at 4 workers aims for 8 chunks of 1_250_000 bytes each
    let chunks = plan_chunks(10_000_000, 0, 4);
    assert_eq!(chunks.len(), 8);
    let mut sum: u64 = 0;
    for c in &chunks {
        assert!(c.end - c.start <= MAX_CHUNK_SIZE);
        sum += c.end - c.start;
    }
    assert_eq!(sum, 10_000_000);
    assert_eq!(chunks[0].start, 0);
    assert_eq!(chunks[7].end, 10_000_000);
}

#[test]
fn partition_has_no_gaps_and_no_overlaps() {
    let cases: &[(u64, u64, u64)] = &[
        (10_000_000, 0, 4),
        (10_000_000, 3_333_333, 4),
        (1, 0, 1),
        (5_000_000_000, 12345, 16),
        (999, 998, 0),
        (70_000_000_000, 0, 1),
    ];
    for &(total, resume, workers) in cases {
        let chunks = plan_chunks(total, resume, workers);
        assert!(!chunks.is_empty());
        assert_eq!(chunks[0].start, resume);
        assert_eq!(chunks[chunks.len() - 1].end, total);
        for i in 0..chunks.len() {
            assert!(chunks[i].start < chunks[i].end);
            if i + 1 < chunks.len() {
                assert_eq!(chunks[i].end, chunks[i + 1].start);
            }
        }
    }
}

#[test]
fn planning_twice_gives_identical_chunks() {
    let a = plan_chunks(123_456_789, 1_000_000, 7);
    let b = plan_chunks(123_456_789, 1_000_000, 7);
    assert_eq!(a.len(), b.len());
    for i in 0..a.len() {
        assert_eq!(a[i].start, b[i].start);
        assert_eq!(a[i].end, b[i].end);
    }
}

#[test]
fn already_complete_plan_is_empty() {
    let chunks = plan_chunks(1_000_000, 1_000_000, 4);
    assert!(chunks.is_empty());
    let past = plan_chunks(10, 20, 4);
    assert!(past.is_empty());
}

#[test]
fn chunk_size_is_clamped() {
    // small file: clamped up to the minimum
    assert_eq!(chunk_size_for(10, 4), MIN_CHUNK_SIZE);
    // huge file with little parallelism: clamped down to the maximum
    assert_eq!(chunk_size_for(u64::MAX, 1), MAX_CHUNK_SIZE);
    // in between: the plain division
    assert_eq!(chunk_size_for(10_000_000, 4), 1_250_000);
    // zero workers still aim for two chunks
    assert_eq!(chunk_size_for(400_000_000, 0), 67_108_864);
}

#[test]
fn byte_len_matches_range() {
    let chunks = plan_chunks(10_000_000, 0, 4);
    assert_eq!(chunks[0].byte_len(), 1_250_000);
}
