use scriptling::number::{Arith, Comparison, Number, NumberError};

fn ratio(negative: bool, numer: u64, denom: u64) -> Number {
    Number { negative, numer, denom }
}

#[test]
fn sum_of_fractions_is_exact() {
    let r = Number::arith(Arith::Add, ratio(false, 1, 2), ratio(false, 1, 3));
    assert_eq!(r, Ok(ratio(false, 5, 6)));
}

#[test]
fn sum_crosses_zero() {
    let r = Number::arith(Arith::Add, Number::from_i64(-1), Number::from_u64(6));
    assert_eq!(r, Ok(Number::from_u64(5)));
    let r = Number::arith(Arith::Add, Number::from_i64(-6), Number::from_u64(1));
    assert_eq!(r, Ok(Number::from_i64(-5)));
    let r = Number::arith(Arith::Add, Number::from_i64(-3), Number::from_u64(3));
    assert_eq!(r, Ok(Number::from_u64(0)));
}

#[test]
fn difference_of_fractions_is_exact() {
    let r = Number::arith(Arith::Sub, ratio(false, 1, 2), ratio(false, 3, 4));
    assert_eq!(r, Ok(ratio(true, 1, 4)));
}

#[test]
fn product_of_fractions_is_exact_and_reduced() {
    let r = Number::arith(Arith::Mul, ratio(false, 2, 3), ratio(true, 3, 4));
    assert_eq!(r, Ok(ratio(true, 1, 2)));
}

#[test]
fn quotient_of_fractions_is_exact() {
    let r = Number::arith(Arith::Div, ratio(false, 1, 3), ratio(false, 1, 6));
    assert_eq!(r, Ok(Number::from_u64(2)));
    let r = Number::arith(Arith::Div, Number::from_u64(1), Number::from_u64(3));
    assert_eq!(r, Ok(ratio(false, 1, 3)));
}

#[test]
fn thirds_add_up_to_one_without_rounding() {
    let third = ratio(false, 1, 3);
    let two = Number::arith(Arith::Add, third, third).unwrap();
    let three = Number::arith(Arith::Add, two, third).unwrap();
    assert_eq!(three, Number::from_u64(1));
}

#[test]
fn division_by_zero_fails() {
    let r = Number::arith(Arith::Div, Number::from_u64(1), Number::from_u64(0));
    assert_eq!(r, Err(NumberError::DivisionByZero));
}

#[test]
fn zero_denominator_is_no_number() {
    for op in [Arith::Add, Arith::Sub, Arith::Mul, Arith::Div] {
        assert_eq!(
            Number::arith(op, ratio(false, 1, 0), Number::from_u64(1)),
            Err(NumberError::DivisionByZero)
        );
        assert_eq!(
            Number::arith(op, Number::from_u64(1), ratio(false, 1, 0)),
            Err(NumberError::DivisionByZero)
        );
    }
    assert_eq!(Number::compare(Comparison::Eq, ratio(false, 1, 0), Number::from_u64(1)), None);
}

#[test]
fn overflow_fails_instead_of_wrapping() {
    let big = Number::from_u64(u64::MAX);
    assert_eq!(Number::arith(Arith::Add, big, Number::from_u64(1)), Err(NumberError::Overflow));
    assert_eq!(Number::arith(Arith::Mul, big, Number::from_u64(2)), Err(NumberError::Overflow));
}

#[test]
fn comparisons_follow_the_rationals() {
    let half = ratio(false, 1, 2);
    let two_quarters = ratio(false, 2, 4);
    let third = ratio(false, 1, 3);
    let minus_half = ratio(true, 1, 2);
    assert_eq!(Number::compare(Comparison::Eq, half, two_quarters), Some(true));
    assert_eq!(Number::compare(Comparison::Eq, half, third), Some(false));
    assert_eq!(Number::compare(Comparison::Lt, third, half), Some(true));
    assert_eq!(Number::compare(Comparison::Lt, half, third), Some(false));
    assert_eq!(Number::compare(Comparison::Lte, half, two_quarters), Some(true));
    assert_eq!(Number::compare(Comparison::Gt, half, minus_half), Some(true));
    assert_eq!(Number::compare(Comparison::Gte, minus_half, half), Some(false));
    assert_eq!(Number::compare(Comparison::Lt, minus_half, third), Some(true));
}

#[test]
fn negative_zero_equals_zero() {
    assert_eq!(
        Number::compare(Comparison::Eq, ratio(true, 0, 1), Number::from_u64(0)),
        Some(true)
    );
    assert_eq!(
        Number::compare(Comparison::Lt, ratio(true, 0, 1), Number::from_u64(0)),
        Some(false)
    );
}

#[test]
fn from_i64_covers_the_whole_range() {
    assert_eq!(Number::from_i64(0), ratio(false, 0, 1));
    assert_eq!(Number::from_i64(-7), ratio(true, 7, 1));
    assert_eq!(Number::from_i64(i64::MIN), ratio(true, 1u64 << 63, 1));
    assert_eq!(Number::from_i64(i64::MAX), ratio(false, i64::MAX as u64, 1));
}

fn parts(n: Number) -> (bool, u64, u64) {
    (n.negative, n.numer, n.denom)
}

#[test]
fn results_come_in_lowest_terms() {
    let r = Number::arith(Arith::Mul, ratio(false, 2, 3), ratio(true, 3, 4)).unwrap();
    assert_eq!(parts(r), (true, 1, 2));
    let r = Number::arith(Arith::Add, ratio(false, 1, 4), ratio(false, 1, 4)).unwrap();
    assert_eq!(parts(r), (false, 1, 2));
    let r = Number::arith(Arith::Sub, ratio(false, 2, 4), ratio(false, 1, 2)).unwrap();
    assert_eq!(parts(r), (false, 0, 1));
}

#[test]
fn reduce_divides_by_the_greatest_common_divisor() {
    assert_eq!(parts(ratio(false, 25, 100).reduce()), (false, 1, 4));
    assert_eq!(parts(ratio(true, 6, 4).reduce()), (true, 3, 2));
    assert_eq!(parts(ratio(false, 0, 5).reduce()), (false, 0, 1));
    assert_eq!(parts(ratio(false, 7, 7).reduce()), (false, 1, 1));
    assert_eq!(parts(ratio(false, 3, 7).reduce()), (false, 3, 7));
    assert_eq!(parts(ratio(false, 3, 0).reduce()), (false, 3, 0));
}

#[test]
fn numbers_are_equal_when_they_denote_the_same_rational() {
    assert_eq!(ratio(false, 2, 4), ratio(false, 1, 2));
    assert_eq!(ratio(true, 0, 3), ratio(false, 0, 1));
    assert_ne!(ratio(false, 1, 2), ratio(true, 1, 2));
    assert_ne!(ratio(false, 1, 2), ratio(false, 1, 3));
    assert_eq!(ratio(false, 1, 0), ratio(false, 1, 0));
    assert_ne!(ratio(false, 1, 0), ratio(false, 2, 0));
    assert_ne!(ratio(false, 1, 0), ratio(false, 1, 1));
}
