use std::collections::HashMap;

use fibonacci::fibonacci;
use fibonacci::fibonacci_dp;
use fibonacci::fibonacci_iterative;
use fibonacci::fibonacci_match;
use fibonacci::fibonacci_memo;
use fibonacci::fibonacci_u64;

const REFERENCE: [u32; 11] = [0, 1, 1, 2, 3, 5, 8, 13, 21, 34, 55];

#[test]
fn test_fibonacci_reference_sequence() {
    let mut memo: HashMap<u32, u32> = HashMap::new();
    for n in 0..REFERENCE.len() as u32 {
        let want = REFERENCE[n as usize];
        assert_eq!(fibonacci(n), want);
        assert_eq!(fibonacci_match(n), want);
        assert_eq!(fibonacci_dp(n), want);
        assert_eq!(fibonacci_memo(n, &mut memo), want);
        assert_eq!(fibonacci_iterative(n), want);
        assert_eq!(fibonacci_u64(n), want as u64);
    }
}

#[test]
fn test_fibonacci_is_deterministic() {
    for n in [1u32, 7, 12, 20] {
        assert_eq!(fibonacci_iterative(n), fibonacci_iterative(n));
        assert_eq!(fibonacci(n), fibonacci(n));
    }
}

#[test]
fn test_fibonacci_match_small() {
    assert_eq!(fibonacci_match(3), 2);
}

#[test]
fn test_fibonacci_agree_at_thirty() {
    let mut memo: HashMap<u32, u32> = HashMap::new();
    let want = 832040;
    assert_eq!(fibonacci(30), want);
    assert_eq!(fibonacci_match(30), want);
    assert_eq!(fibonacci_dp(30), want);
    assert_eq!(fibonacci_memo(30, &mut memo), want);
    assert_eq!(fibonacci_iterative(30), want);
}

#[test]
fn test_fibonacci_memo_reuses_table() {
    let mut memo: HashMap<u32, u32> = HashMap::new();
    assert_eq!(fibonacci_memo(40, &mut memo), 102334155);
    // The table now holds every value up to 40; a later call is a pure
    // lookup and leaves the table exactly as it was.
    let len_before = memo.len();
    assert_eq!(fibonacci_memo(35, &mut memo), 9227465);
    assert_eq!(memo.len(), len_before);
    assert_eq!(memo.get(&40), Some(&102334155));
    assert_eq!(memo.get(&0), Some(&0));
}

#[test]
fn test_fibonacci_largest_u32_input() {
    // 47 is the largest index whose value fits in 32 bits.
    assert_eq!(fibonacci_iterative(47), 2971215073);
    assert_eq!(fibonacci_dp(47), 2971215073);
}

#[test]
fn test_fibonacci_u64_wide_inputs() {
    assert_eq!(fibonacci_u64(50), 12586269025);
    // 93 is the largest index whose value fits in 64 bits.
    assert_eq!(fibonacci_u64(93), 12200160415121876738);
}
