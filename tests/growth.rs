use ljka::growth::growth;
use ljka::pool::{spawn_counts, Fraction};

#[test]
fn growth_exact_values() {
    // round(2n - 2n / (1 + sqrt(g / n)))
    assert_eq!(growth(1, 4), 3);
    assert_eq!(growth(2, 4), 3);
    assert_eq!(growth(4, 4), 4);
    assert_eq!(growth(1, 100), 18);
    assert_eq!(growth(25, 100), 67);
    assert_eq!(growth(50, 100), 83);
    assert_eq!(growth(10, 5000), 428);
    assert_eq!(growth(500, 5000), 2403);
}

#[test]
fn growth_of_zero_successes_is_zero() {
    for n in 0..200u32 {
        assert_eq!(growth(0, n), 0);
    }
}

#[test]
fn growth_is_non_decreasing_in_successes() {
    for n in [1u32, 2, 7, 50, 333] {
        let mut last = 0;
        for g in 0..=n + 5 {
            let v = growth(g, n);
            assert!(v >= last);
            assert!(v <= n);
            last = v;
        }
    }
}

#[test]
fn growth_saturates_at_population() {
    assert_eq!(growth(10, 10), 10);
    assert_eq!(growth(25, 10), 10);
    assert_eq!(growth(u32::MAX, u32::MAX), u32::MAX);
    assert_eq!(growth(7, 0), 0);
}

#[test]
fn spawn_counts_freeze_mutation_above_threshold() {
    let nine_tenths = Fraction { numerator: 9, denominator: 10 };
    // 95 of 100 repeat survivors: 0.95 > 0.9
    let c = spawn_counts(97, 95, 100, nine_tenths);
    assert_eq!(c.mutated, 0);
    assert_eq!(c.unmutated, 100);
}

#[test]
fn spawn_counts_at_threshold_keep_mutating() {
    let nine_tenths = Fraction { numerator: 9, denominator: 10 };
    // exactly 0.9 is not above 0.9
    let c = spawn_counts(25, 90, 100, nine_tenths);
    assert_eq!(c.unmutated, 67);
    assert_eq!(c.mutated, 33);
}

#[test]
fn spawn_counts_zero_denominator_never_freezes() {
    let unbounded = Fraction { numerator: 1, denominator: 0 };
    let c = spawn_counts(100, 100, 100, unbounded);
    assert_eq!(c.unmutated, 100);
    assert_eq!(c.mutated, 0);
    let c = spawn_counts(1, 1, 4, unbounded);
    assert_eq!(c.unmutated, 3);
    assert_eq!(c.mutated, 1);
}
