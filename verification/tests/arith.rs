use hello_arith::arith;

#[test]
fn add_small_operands() {
    assert_eq!(arith::add(42, 100), 142);
    assert_eq!(arith::add(0, 0), 0);
    assert_eq!(arith::add(-5, 5), 0);
    assert_eq!(arith::add(-20, -22), -42);
}

#[test]
fn subtract_is_ordered() {
    assert_eq!(arith::subtract(10, 3), 7);
    assert_eq!(arith::subtract(3, 10), -7);
    assert_eq!(arith::subtract(0, 0), 0);
}

#[test]
fn exact_when_result_is_representable() {
    let samples: [i32; 9] = [i32::MIN, -1_000_000_007, -100, -1, 0, 1, 77, 1_000_000_007, i32::MAX];
    for &a in samples.iter() {
        for &b in samples.iter() {
            let exact_sum = a as i64 + b as i64;
            if i32::MIN as i64 <= exact_sum && exact_sum <= i32::MAX as i64 {
                assert_eq!(arith::add(a, b) as i64, exact_sum);
            }
            let exact_difference = a as i64 - b as i64;
            if i32::MIN as i64 <= exact_difference && exact_difference <= i32::MAX as i64 {
                assert_eq!(arith::subtract(a, b) as i64, exact_difference);
            }
        }
    }
}

#[test]
fn add_wraps_at_both_ends() {
    assert_eq!(arith::add(i32::MAX, 1), i32::MIN);
    assert_eq!(arith::add(i32::MIN, -1), i32::MAX);
    assert_eq!(arith::add(i32::MAX, i32::MAX), -2);
    assert_eq!(arith::add(i32::MIN, i32::MIN), 0);
}

#[test]
fn subtract_wraps_at_both_ends() {
    assert_eq!(arith::subtract(i32::MIN, 1), i32::MAX);
    assert_eq!(arith::subtract(i32::MAX, -1), i32::MIN);
    assert_eq!(arith::subtract(0, i32::MIN), i32::MIN);
    assert_eq!(arith::subtract(-2, i32::MAX), i32::MAX);
}

#[test]
fn wrapped_results_are_congruent_to_exact_results() {
    let modulus: i64 = 1 << 32;
    let samples: [i32; 7] = [i32::MIN, -2_000_000_000, -3, 0, 9, 2_000_000_000, i32::MAX];
    for &a in samples.iter() {
        for &b in samples.iter() {
            let sum = arith::add(a, b) as i64;
            assert_eq!((sum - (a as i64 + b as i64)).rem_euclid(modulus), 0);
            let difference = arith::subtract(a, b) as i64;
            assert_eq!((difference - (a as i64 - b as i64)).rem_euclid(modulus), 0);
        }
    }
}
