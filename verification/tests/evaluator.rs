use staging_guard::entries::{StagedEntry, Thresholds};
use staging_guard::evaluate::evaluate;

fn entry(path: &str, size: u64) -> StagedEntry {
    StagedEntry {
        path: path.to_string(),
        size,
    }
}

fn thresholds() -> Thresholds {
    Thresholds {
        file_tolerance: 100_000_000,
        staged_tolerance: 500_000_000,
    }
}

#[test]
fn empty_staging_area_passes() {
    let entries: Vec<StagedEntry> = Vec::new();
    let r = evaluate(&entries, &thresholds());
    assert_eq!(r.total, 0);
    assert_eq!(r.oversized.len(), 0);
    assert!(!r.file_breach);
    assert!(!r.aggregate_breach);
    assert!(r.passes());
}

#[test]
fn one_small_file_passes() {
    let entries = vec![entry("50_mb_file.txt", 50_000_000)];
    let r = evaluate(&entries, &thresholds());
    assert_eq!(r.total, 50_000_000);
    assert_eq!(r.oversized.len(), 0);
    assert!(!r.file_breach);
    assert!(!r.aggregate_breach);
    assert!(r.passes());
}

#[test]
fn one_large_file_breaches_the_file_limit_alone() {
    let entries = vec![entry("500_mb_file.txt", 500_000_000)];
    let r = evaluate(&entries, &thresholds());
    assert_eq!(r.total, 500_000_000);
    assert_eq!(r.oversized.len(), 1);
    assert_eq!(r.oversized[0].path, "500_mb_file.txt");
    assert_eq!(r.oversized[0].size, 500_000_000);
    assert!(r.file_breach);
    // 500,000,000 is not strictly greater than the aggregate tolerance.
    assert!(!r.aggregate_breach);
    assert!(!r.passes());
}

#[test]
fn two_small_files_pass() {
    let entries = vec![entry("40_mb_file.txt", 40_000_000), entry("50_mb_file.txt", 50_000_000)];
    let r = evaluate(&entries, &thresholds());
    assert_eq!(r.total, 90_000_000);
    assert_eq!(r.oversized.len(), 0);
    assert!(r.passes());
}

#[test]
fn grown_file_fails_only_after_growing() {
    let before = vec![entry("40_mb_file.txt", 40_000_000)];
    let first = evaluate(&before, &thresholds());
    assert_eq!(first.total, 40_000_000);
    assert_eq!(first.oversized.len(), 0);
    assert!(first.passes());

    let after = vec![entry("40_mb_file.txt", 150_000_000)];
    let second = evaluate(&after, &thresholds());
    assert_eq!(second.total, 150_000_000);
    assert_eq!(second.oversized.len(), 1);
    assert_eq!(second.oversized[0].path, "40_mb_file.txt");
    assert_eq!(second.oversized[0].size, 150_000_000);
    assert!(second.file_breach);
    assert!(!second.passes());
}

#[test]
fn entry_exactly_at_the_tolerance_is_not_oversized() {
    let entries = vec![entry("at_limit.bin", 100_000_000)];
    let r = evaluate(&entries, &thresholds());
    assert_eq!(r.oversized.len(), 0);
    assert!(!r.file_breach);

    let entries = vec![entry("one_over.bin", 100_000_001)];
    let r = evaluate(&entries, &thresholds());
    assert_eq!(r.oversized.len(), 1);
    assert!(r.file_breach);
}

#[test]
fn aggregate_counts_every_entry_exactly_once() {
    let entries = vec![
        entry("a", 1),
        entry("b", 2),
        entry("c", 300_000_000),
        entry("d", 4),
        entry("e", 5),
    ];
    let r = evaluate(&entries, &thresholds());
    // The oversized entry "c" is still part of the aggregate sum.
    assert_eq!(r.total, 300_000_012);
    assert_eq!(r.oversized.len(), 1);
    assert_eq!(r.oversized[0].path, "c");
}

#[test]
fn oversized_list_holds_exactly_the_strictly_greater_entries_in_order() {
    let t = Thresholds {
        file_tolerance: 10,
        staged_tolerance: 1_000,
    };
    let entries = vec![
        entry("small", 3),
        entry("big_one", 11),
        entry("at_limit", 10),
        entry("big_two", 250),
        entry("zero", 0),
    ];
    let r = evaluate(&entries, &t);
    assert_eq!(r.oversized.len(), 2);
    assert_eq!(r.oversized[0].path, "big_one");
    assert_eq!(r.oversized[0].size, 11);
    assert_eq!(r.oversized[1].path, "big_two");
    assert_eq!(r.oversized[1].size, 250);
    assert_eq!(r.total, 274);
}

#[test]
fn aggregate_breach_without_any_oversized_file() {
    let entries = vec![
        entry("a", 90_000_000),
        entry("b", 90_000_000),
        entry("c", 90_000_000),
        entry("d", 90_000_000),
        entry("e", 90_000_000),
        entry("f", 90_000_000),
    ];
    let r = evaluate(&entries, &thresholds());
    assert_eq!(r.total, 540_000_000);
    assert_eq!(r.oversized.len(), 0);
    assert!(!r.file_breach);
    assert!(r.aggregate_breach);
    assert!(!r.passes());
}

#[test]
fn oversized_total_sums_only_the_listed_entries() {
    let t = Thresholds {
        file_tolerance: 10,
        staged_tolerance: 1_000,
    };
    let entries = vec![entry("a", 5), entry("b", 20), entry("c", 30)];
    let r = evaluate(&entries, &t);
    assert_eq!(r.total, 55);
    assert_eq!(r.oversized_total(), 50);
}

#[test]
fn evaluating_the_same_entries_twice_yields_identical_results() {
    let entries = vec![
        entry("a", 7),
        entry("huge", 400_000_000),
        entry("b", 100_000_000),
    ];
    let t = thresholds();
    let r1 = evaluate(&entries, &t);
    let r2 = evaluate(&entries, &t);
    assert_eq!(r1.total, r2.total);
    assert_eq!(r1.file_breach, r2.file_breach);
    assert_eq!(r1.aggregate_breach, r2.aggregate_breach);
    assert_eq!(r1.oversized.len(), r2.oversized.len());
    for (a, b) in r1.oversized.iter().zip(r2.oversized.iter()) {
        assert_eq!(a.path, b.path);
        assert_eq!(a.size, b.size);
    }
}

#[test]
fn lossy_path_decoding_replaces_invalid_bytes() {
    let bytes: Vec<u8> = vec![0x66, 0xFF, 0x6F];
    let e = StagedEntry::new(&bytes, 3);
    assert_eq!(e.path, "f\u{FFFD}o");
    assert_eq!(e.size, 3);

    let valid: Vec<u8> = b"src/lib.rs".to_vec();
    let e = StagedEntry::new(&valid, 42);
    assert_eq!(e.path, "src/lib.rs");
    assert_eq!(e.size, 42);
}
