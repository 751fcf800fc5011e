//! Tests for the completion tracker.

use dropbox_sdk::tracker::CompletionTracker;

#[test]
fn full_coverage_in_order() {
    let mut t = CompletionTracker::new();
    t.complete_block(0, 10);
    t.complete_block(10, 30);
    t.complete_block(40, 60);
    assert_eq!(t.complete_up_to(), 100);
}

#[test]
fn full_coverage_reversed() {
    let mut t = CompletionTracker::new();
    t.complete_block(40, 60);
    t.complete_block(10, 30);
    assert_eq!(t.complete_up_to(), 0);
    t.complete_block(0, 10);
    assert_eq!(t.complete_up_to(), 100);
}

#[test]
fn full_coverage_all_permutations() {
    let blocks = [(0u64, 10u64), (10, 30), (40, 60), (100, 1)];
    let n = 101;
    let perms: Vec<Vec<usize>> = permutations(blocks.len());
    for perm in perms {
        let mut t = CompletionTracker::new();
        for &i in &perm {
            t.complete_block(blocks[i].0, blocks[i].1);
        }
        assert_eq!(t.complete_up_to(), n, "order {:?}", perm);
    }
}

fn permutations(n: usize) -> Vec<Vec<usize>> {
    if n == 0 {
        return vec![vec![]];
    }
    let mut out = Vec::new();
    for p in permutations(n - 1) {
        for pos in 0..=p.len() {
            let mut q = p.clone();
            q.insert(pos, n - 1);
            out.push(q);
        }
    }
    out
}

#[test]
fn watermark_never_decreases() {
    let mut t = CompletionTracker::new();
    let calls = [(50u64, 10u64), (0, 25), (25, 25), (99, 1), (50, 10), (60, 39)];
    let mut last = t.complete_up_to();
    for &(off, len) in &calls {
        t.complete_block(off, len);
        let now = t.complete_up_to();
        assert!(now >= last, "watermark went from {} to {}", last, now);
        last = now;
    }
    assert_eq!(t.complete_up_to(), 100);
}

#[test]
fn duplicate_below_watermark_is_ignored() {
    let mut t = CompletionTracker::new();
    t.complete_block(0, 40);
    assert_eq!(t.complete_up_to(), 40);
    t.complete_block(0, 40);
    assert_eq!(t.complete_up_to(), 40);
    t.complete_block(10, 5);
    assert_eq!(t.complete_up_to(), 40);
    t.complete_block(40, 10);
    assert_eq!(t.complete_up_to(), 50);
}

#[test]
fn resume_from_starts_at_offset() {
    let mut t = CompletionTracker::resume_from(4194304);
    assert_eq!(t.complete_up_to(), 4194304);
    t.complete_block(4194304, 4194304);
    assert_eq!(t.complete_up_to(), 8388608);
}

#[test]
fn gap_then_fill() {
    let mut t = CompletionTracker::new();
    t.complete_block(8, 8);
    t.complete_block(24, 8);
    assert_eq!(t.complete_up_to(), 0);
    t.complete_block(0, 8);
    assert_eq!(t.complete_up_to(), 16);
    t.complete_block(16, 8);
    assert_eq!(t.complete_up_to(), 32);
}

#[test]
fn zero_length_block_at_watermark() {
    let mut t = CompletionTracker::new();
    t.complete_block(0, 0);
    assert_eq!(t.complete_up_to(), 0);
    t.complete_block(0, 16);
    assert_eq!(t.complete_up_to(), 16);
    t.complete_block(16, 0);
    assert_eq!(t.complete_up_to(), 16);
}
