use atomic_maybe_uninit::memory::{Memory, Span, Target, Width};
use atomic_maybe_uninit::ordering::Ordering;

const NATIVE: Target = Target { big_endian: false, sub_word_rmw: true };

fn span(addr: usize, width: Width) -> Span {
    Span::new(addr, width).unwrap()
}

#[test]
fn span_rejects_misaligned_address() {
    assert!(Span::new(3, Width::W32).is_none());
    assert!(Span::new(8, Width::W128).is_none());
    assert!(Span::new(16, Width::W128).is_some());
    assert!(Span::new(7, Width::W8).is_some());
    assert_eq!(Width::W64.size(), 8);
}

#[test]
fn store_then_load_round_trips_every_width() {
    let widths = [Width::W8, Width::W16, Width::W32, Width::W64, Width::W128];
    for w in widths {
        let n = w.size();
        let mut mem = Memory::new(vec![0xaa; 32], NATIVE);
        let pattern: Vec<u8> = (0..n).map(|i| (i as u8).wrapping_mul(37) ^ 0x5c).collect();
        let s = span(16, w);
        mem.atomic_store(s, &pattern, Ordering::SeqCst);
        let mut out = vec![0u8; n];
        mem.atomic_load(s, &mut out, Ordering::Acquire);
        assert_eq!(out, pattern);
        // bytes outside the span are untouched
        assert!(mem.bytes[..16].iter().all(|b| *b == 0xaa));
        assert!(mem.bytes[16 + n..].iter().all(|b| *b == 0xaa));
    }
}

#[test]
fn round_trip_of_all_zero_and_all_one_patterns() {
    for fill in [0x00u8, 0xff] {
        let mut mem = Memory::new(vec![0x11; 16], NATIVE);
        let s = span(8, Width::W64);
        mem.atomic_store(s, &vec![fill; 8], Ordering::Relaxed);
        let mut out = vec![0x33u8; 8];
        mem.atomic_load(s, &mut out, Ordering::Relaxed);
        assert_eq!(out, vec![fill; 8]);
    }
}

#[test]
fn swap_exchange_law() {
    let mut mem = Memory::new(vec![1, 2, 3, 4, 5, 6, 7, 8], NATIVE);
    let s = span(4, Width::W32);
    let mut out1 = vec![0u8; 4];
    let mut out2 = vec![0u8; 4];
    mem.atomic_swap(s, &vec![9, 9, 9, 9], &mut out1, Ordering::AcqRel);
    mem.atomic_swap(s, &vec![7, 7, 7, 7], &mut out2, Ordering::AcqRel);
    assert_eq!(out1, vec![5, 6, 7, 8]);
    assert_eq!(out2, vec![9, 9, 9, 9]);
    assert_eq!(mem.bytes, vec![1, 2, 3, 4, 7, 7, 7, 7]);
}

#[test]
fn compare_exchange_success() {
    let mut mem = Memory::new(vec![0, 0, 0xde, 0xad], NATIVE);
    let s = span(2, Width::W16);
    let mut out = vec![0u8; 2];
    let ok = mem.atomic_compare_exchange(
        s,
        &vec![0xde, 0xad],
        &vec![0xbe, 0xef],
        &mut out,
        Ordering::SeqCst,
        Ordering::SeqCst,
    );
    assert!(ok);
    assert_eq!(out, vec![0xde, 0xad]);
    assert_eq!(mem.bytes, vec![0, 0, 0xbe, 0xef]);
}

#[test]
fn compare_exchange_failure() {
    let mut mem = Memory::new(vec![0, 0, 0xde, 0xad], NATIVE);
    let s = span(2, Width::W16);
    let mut out = vec![0u8; 2];
    let ok = mem.atomic_compare_exchange(
        s,
        &vec![0xde, 0xae],
        &vec![0xbe, 0xef],
        &mut out,
        Ordering::Acquire,
        Ordering::Relaxed,
    );
    assert!(!ok);
    assert_eq!(out, vec![0xde, 0xad]);
    assert_eq!(mem.bytes, vec![0, 0, 0xde, 0xad]);
}

#[test]
fn weak_compare_exchange_retries_until_it_commits() {
    let mut mem = Memory::new(vec![4; 16], NATIVE);
    let s = span(0, Width::W128);
    let expected = vec![4u8; 16];
    let new = vec![8u8; 16];
    let reservations = [false, false, false, true];
    let mut attempts = 0;
    let mut out = vec![0u8; 16];
    loop {
        let committed = reservations[attempts];
        attempts += 1;
        let ok = mem.atomic_compare_exchange_weak(
            s,
            &expected,
            &new,
            &mut out,
            Ordering::Release,
            Ordering::Relaxed,
            committed,
        );
        assert_eq!(out, expected);
        if ok {
            break;
        }
        assert_eq!(mem.bytes, expected);
    }
    assert_eq!(attempts, 4);
    assert_eq!(mem.bytes, new);
}

#[test]
fn weak_compare_exchange_fails_on_mismatch_even_when_committed() {
    let mut mem = Memory::new(vec![1; 8], NATIVE);
    let s = span(0, Width::W64);
    let mut out = vec![0u8; 8];
    let ok = mem.atomic_compare_exchange_weak(
        s,
        &vec![2; 8],
        &vec![3; 8],
        &mut out,
        Ordering::SeqCst,
        Ordering::Acquire,
        true,
    );
    assert!(!ok);
    assert_eq!(out, vec![1; 8]);
    assert_eq!(mem.bytes, vec![1; 8]);
}

#[test]
fn interleaved_swaps_lose_and_duplicate_nothing() {
    // Four writers, each swapping three distinct values, interleaved round-robin.
    let threads = 4u8;
    let rounds = 3u8;
    let mut mem = Memory::new(vec![0, 0, 0, 0], NATIVE);
    let s = span(0, Width::W32);
    let mut observed: Vec<Vec<u8>> = Vec::new();
    let mut written: Vec<Vec<u8>> = vec![vec![0, 0, 0, 0]];
    for r in 0..rounds {
        for t in 0..threads {
            let v = vec![t + 1, r + 1, t ^ r, 0x80];
            let mut out = vec![0u8; 4];
            mem.atomic_swap(s, &v, &mut out, Ordering::SeqCst);
            observed.push(out);
            written.push(v);
        }
    }
    let last = written.last().unwrap().clone();
    assert_eq!(mem.bytes, last);
    observed.push(mem.bytes.clone());
    observed.sort();
    written.sort();
    assert_eq!(observed, written);
}
