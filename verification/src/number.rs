//! Exact rational numbers.
//!
//! A [`Number`] is a sign, a numerator and a denominator. The arithmetic is
//! done by the `fraction` crate; this module states what that arithmetic
//! means over the integers and proves the language's numeric operators from
//! those statements.

use fraction::{CheckedAdd, CheckedDiv, CheckedMul, CheckedSub, Fraction, GenericFraction};
use vstd::prelude::*;
use vstd::std_specs::cmp::PartialEqSpecImpl;

verus! {

/// A rational number `±numer/denom`. It denotes a number only when the
/// denominator is not zero. Two numbers are equal, by `==`, when they
/// denote the same rational.
#[derive(Clone, Copy, Debug, Eq)]
pub struct Number {
    pub negative: bool,
    pub numer: u64,
    pub denom: u64,
}

/// Why a numeric operation produced no number.
#[derive(Clone, Copy, Debug, PartialEq, Eq)]
pub enum NumberError {
    /// An operand has a zero denominator, or the divisor is zero.
    DivisionByZero,
    /// The exact result, or a step towards it, does not fit in 64 bits.
    Overflow,
}

/// The five comparisons of the language.
#[derive(Clone, Copy, Debug, PartialEq, Eq)]
pub enum Comparison {
    Eq,
    Lt,
    Lte,
    Gt,
    Gte,
}

/// The four arithmetic operators of the language.
#[derive(Clone, Copy, Debug, PartialEq, Eq)]
pub enum Arith {
    Add,
    Sub,
    Mul,
    Div,
}

impl Number {
    /// The numerator with the sign applied.
    pub open spec fn signed_numer(self) -> int {
        if self.negative {
            -(self.numer as int)
        } else {
            self.numer as int
        }
    }

    /// Whether this value denotes a rational number.
    pub open spec fn wf(self) -> bool {
        self.denom != 0
    }

    /// Whether this value denotes zero.
    pub open spec fn is_zero(self) -> bool {
        self.numer == 0
    }
}

/// `a` and `b` denote the same rational.
pub open spec fn num_eq(a: Number, b: Number) -> bool {
    a.signed_numer() * b.denom == b.signed_numer() * a.denom
}

/// `a` denotes a smaller rational than `b`.
pub open spec fn num_lt(a: Number, b: Number) -> bool {
    a.signed_numer() * b.denom < b.signed_numer() * a.denom
}

/// `r` denotes exactly `a + b`.
pub open spec fn is_sum(a: Number, b: Number, r: Number) -> bool {
    r.signed_numer() * (a.denom * b.denom) == (a.signed_numer() * b.denom + b.signed_numer()
        * a.denom) * r.denom
}

/// `r` denotes exactly `a - b`.
pub open spec fn is_difference(a: Number, b: Number, r: Number) -> bool {
    r.signed_numer() * (a.denom * b.denom) == (a.signed_numer() * b.denom - b.signed_numer()
        * a.denom) * r.denom
}

/// `r` denotes exactly `a * b`.
pub open spec fn is_product(a: Number, b: Number, r: Number) -> bool {
    r.signed_numer() * (a.denom * b.denom) == (a.signed_numer() * b.signed_numer()) * r.denom
}

/// `r` denotes exactly `a / b`, for a `b` that is not zero.
pub open spec fn is_quotient(a: Number, b: Number, r: Number) -> bool {
    r.signed_numer() * (a.denom * b.signed_numer()) == (a.signed_numer() * b.denom) * r.denom
}

/// `r` denotes exactly the result of `op` on `a` and `b`.
pub open spec fn is_exact(op: Arith, a: Number, b: Number, r: Number) -> bool {
    match op {
        Arith::Add => is_sum(a, b, r),
        Arith::Sub => is_difference(a, b, r),
        Arith::Mul => is_product(a, b, r),
        Arith::Div => is_quotient(a, b, r),
    }
}

/// The greatest common divisor.
pub open spec fn gcd(a: nat, b: nat) -> nat
    decreases b,
{
    if b == 0 {
        a
    } else {
        gcd(b, a % b)
    }
}

/// A number in lowest terms: numerator and denominator divided by their
/// greatest common divisor. Zero becomes `0/1`; the sign stays.
pub open spec fn reduced(n: Number) -> Number {
    let g = gcd(n.numer as nat, n.denom as nat);
    Number {
        negative: n.negative,
        numer: (n.numer as nat / g) as u64,
        denom: (n.denom as nat / g) as u64,
    }
}

/// What `==` means of two numbers: that they denote the same rational.
/// Values with a zero denominator denote none and are equal only to
/// themselves.
pub open spec fn same_number(a: Number, b: Number) -> bool {
    if a.wf() && b.wf() {
        num_eq(a, b)
    } else {
        a.negative == b.negative && a.numer == b.numer && a.denom == b.denom
    }
}

/// What `fraction`'s `checked_add` gives for two rationals: the sum in lowest
/// terms, or nothing where a step of the computation leaves 64 bits.
pub uninterp spec fn fraction_checked_add(a: Number, b: Number) -> Option<Number>;

/// What `fraction`'s `checked_sub` gives for two rationals.
pub uninterp spec fn fraction_checked_sub(a: Number, b: Number) -> Option<Number>;

/// What `fraction`'s `checked_mul` gives for two rationals.
pub uninterp spec fn fraction_checked_mul(a: Number, b: Number) -> Option<Number>;

/// What `fraction`'s `checked_div` gives for a rational and a divisor that
/// is not zero.
pub uninterp spec fn fraction_checked_div(a: Number, b: Number) -> Option<Number>;

/// `<GenericFraction<u64> as CheckedAdd>::checked_add` on two rationals,
/// each handed over by `Fraction::new` or `Fraction::new_neg`, which put it
/// in lowest terms. Trusted: a result, where there is one, is a rational
/// with a denominator that is not zero and denotes exactly the sum of the
/// operands. There is none where a step of the computation overflows.
#[verifier::external_body]
fn checked_add(a: Number, b: Number) -> (r: Option<Number>)
    requires
        a.wf(),
        b.wf(),
    ensures
        r == fraction_checked_add(a, b),
        r matches Some(v) ==> v.wf() && is_sum(a, b, v),
{
    let f = |n: Number| match n.negative {
        true => Fraction::new_neg(n.numer, n.denom),
        false => Fraction::new(n.numer, n.denom),
    };
    match f(a).checked_add(&f(b)) {
        Some(GenericFraction::Rational(s, q)) => {
            Some(Number { negative: s.is_negative(), numer: *q.numer(), denom: *q.denom() })
        },
        _ => None,
    }
}

/// `<GenericFraction<u64> as CheckedSub>::checked_sub` on two rationals,
/// handed over as for the sum. Trusted: a result, where there is one, is a
/// rational with a denominator that is not zero and denotes exactly the
/// difference of the operands.
#[verifier::external_body]
fn checked_sub(a: Number, b: Number) -> (r: Option<Number>)
    requires
        a.wf(),
        b.wf(),
    ensures
        r == fraction_checked_sub(a, b),
        r matches Some(v) ==> v.wf() && is_difference(a, b, v),
{
    let f = |n: Number| match n.negative {
        true => Fraction::new_neg(n.numer, n.denom),
        false => Fraction::new(n.numer, n.denom),
    };
    match f(a).checked_sub(&f(b)) {
        Some(GenericFraction::Rational(s, q)) => {
            Some(Number { negative: s.is_negative(), numer: *q.numer(), denom: *q.denom() })
        },
        _ => None,
    }
}

/// `<GenericFraction<u64> as CheckedMul>::checked_mul` on two rationals,
/// handed over as for the sum. Trusted: a result, where there is one, is a
/// rational with a denominator that is not zero and denotes exactly the
/// product of the operands.
#[verifier::external_body]
fn checked_mul(a: Number, b: Number) -> (r: Option<Number>)
    requires
        a.wf(),
        b.wf(),
    ensures
        r == fraction_checked_mul(a, b),
        r matches Some(v) ==> v.wf() && is_product(a, b, v),
{
    let f = |n: Number| match n.negative {
        true => Fraction::new_neg(n.numer, n.denom),
        false => Fraction::new(n.numer, n.denom),
    };
    match f(a).checked_mul(&f(b)) {
        Some(GenericFraction::Rational(s, q)) => {
            Some(Number { negative: s.is_negative(), numer: *q.numer(), denom: *q.denom() })
        },
        _ => None,
    }
}

/// `<GenericFraction<u64> as CheckedDiv>::checked_div` on a rational and a
/// divisor that is not zero, handed over as for the sum. Trusted: a result,
/// where there is one, is a rational with a denominator that is not zero
/// and denotes exactly the quotient.
#[verifier::external_body]
fn checked_div(a: Number, b: Number) -> (r: Option<Number>)
    requires
        a.wf(),
        b.wf(),
        !b.is_zero(),
    ensures
        r == fraction_checked_div(a, b),
        r matches Some(v) ==> v.wf() && is_quotient(a, b, v),
{
    let f = |n: Number| match n.negative {
        true => Fraction::new_neg(n.numer, n.denom),
        false => Fraction::new(n.numer, n.denom),
    };
    match f(a).checked_div(&f(b)) {
        Some(GenericFraction::Rational(s, q)) => {
            Some(Number { negative: s.is_negative(), numer: *q.numer(), denom: *q.denom() })
        },
        _ => None,
    }
}

/// `<` of `GenericFraction<u64>` on two rationals, handed over as for the
/// sum. Trusted: the crate orders fractions as the rationals they denote,
/// a negative zero being equal to zero.
#[verifier::external_body]
fn less_than(a: Number, b: Number) -> (r: bool)
    requires
        a.wf(),
        b.wf(),
    ensures
        r == num_lt(a, b),
{
    let f = |n: Number| match n.negative {
        true => Fraction::new_neg(n.numer, n.denom),
        false => Fraction::new(n.numer, n.denom),
    };
    f(a) < f(b)
}

/// `==` of `GenericFraction<u64>` on two rationals, handed over as for the
/// sum. Trusted: two fractions are equal exactly when they denote the same
/// rational, a negative zero being equal to zero.
#[verifier::external_body]
fn equal_to(a: Number, b: Number) -> (r: bool)
    requires
        a.wf(),
        b.wf(),
    ensures
        r == num_eq(a, b),
{
    let f = |n: Number| match n.negative {
        true => Fraction::new_neg(n.numer, n.denom),
        false => Fraction::new(n.numer, n.denom),
    };
    f(a) == f(b)
}

/// Whether a comparison holds of two rationals.
pub open spec fn compare_numbers(relation: Comparison, a: Number, b: Number) -> bool {
    match relation {
        Comparison::Eq => num_eq(a, b),
        Comparison::Lt => num_lt(a, b),
        Comparison::Lte => !num_lt(b, a),
        Comparison::Gt => num_lt(b, a),
        Comparison::Gte => !num_lt(a, b),
    }
}

/// `Fraction::new` or `Fraction::new_neg` on a numerator and a denominator
/// that is not zero, read back by `numer` and `denom`. Trusted: the crate
/// keeps the sign and puts the ratio in lowest terms, dividing both parts
/// by their greatest common divisor; the result has a denominator that is
/// not zero and denotes the same rational.
#[verifier::external_body]
fn lowest_terms(n: Number) -> (r: Number)
    requires
        n.wf(),
    ensures
        r == reduced(n),
        r.wf(),
        num_eq(n, r),
{
    let f = match n.negative {
        true => Fraction::new_neg(n.numer, n.denom),
        false => Fraction::new(n.numer, n.denom),
    };
    match f {
        GenericFraction::Rational(s, q) => {
            Number { negative: s.is_negative(), numer: *q.numer(), denom: *q.denom() }
        },
        _ => n,
    }
}

impl PartialEq for Number {
    fn eq(&self, other: &Number) -> (r: bool) {
        if self.denom != 0 && other.denom != 0 {
            equal_to(*self, *other)
        } else {
            self.negative == other.negative && self.numer == other.numer && self.denom
                == other.denom
        }
    }
}

impl PartialEqSpecImpl for Number {
    open spec fn obeys_eq_spec() -> bool {
        true
    }

    open spec fn eq_spec(&self, other: &Number) -> bool {
        same_number(*self, *other)
    }
}

/// The result of an arithmetic operator on two values, as the evaluator
/// reports it.
pub open spec fn arith_spec(op: Arith, a: Number, b: Number) -> Result<Number, NumberError> {
    if !a.wf() || !b.wf() {
        Err(NumberError::DivisionByZero)
    } else if op == Arith::Div && b.is_zero() {
        Err(NumberError::DivisionByZero)
    } else {
        let r = match op {
            Arith::Add => fraction_checked_add(a, b),
            Arith::Sub => fraction_checked_sub(a, b),
            Arith::Mul => fraction_checked_mul(a, b),
            Arith::Div => fraction_checked_div(a, b),
        };
        match r {
            Some(v) => Ok(v),
            None => Err(NumberError::Overflow),
        }
    }
}

impl Number {
    /// The non-negative integer `n`.
    pub fn from_u64(n: u64) -> (r: Number)
        ensures
            r == (Number { negative: false, numer: n, denom: 1 }),
    {
        Number { negative: false, numer: n, denom: 1 }
    }

    /// The integer `n`.
    pub fn from_i64(n: i64) -> (r: Number)
        ensures
            r.wf(),
            r.denom == 1,
            r.signed_numer() == n,
            r.negative == (n < 0),
    {
        if n >= 0 {
            Number { negative: false, numer: n as u64, denom: 1 }
        } else if n == i64::MIN {
            Number { negative: true, numer: 0x8000_0000_0000_0000u64, denom: 1 }
        } else {
            Number { negative: true, numer: (-n) as u64, denom: 1 }
        }
    }

    /// The number in lowest terms, with the same sign. A value with a zero
    /// denominator is handed back as it is.
    pub fn reduce(self) -> (r: Number)
        ensures
            r == if self.wf() {
                reduced(self)
            } else {
                self
            },
            self.wf() ==> r.wf() && num_eq(self, r),
    {
        if self.denom == 0 {
            self
        } else {
            lowest_terms(self)
        }
    }

    /// Whether a comparison holds of two numbers, as the rationals they
    /// denote. There is no answer where one of them has a zero denominator.
    pub fn compare(relation: Comparison, a: Number, b: Number) -> (r: Option<bool>)
        ensures
            r == if a.wf() && b.wf() {
                Some(compare_numbers(relation, a, b))
            } else {
                None
            },
    {
        if a.denom == 0 || b.denom == 0 {
            return None;
        }
        Some(
            match relation {
                Comparison::Eq => equal_to(a, b),
                Comparison::Lt => less_than(a, b),
                Comparison::Lte => !less_than(b, a),
                Comparison::Gt => less_than(b, a),
                Comparison::Gte => !less_than(a, b),
            },
        )
    }

    /// Applies an arithmetic operator with exact rational semantics: the
    /// result denotes exactly the mathematical result, or the operation
    /// fails. It never rounds.
    pub fn arith(op: Arith, a: Number, b: Number) -> (r: Result<Number, NumberError>)
        ensures
            r == arith_spec(op, a, b),
            r matches Ok(v) ==> v.wf() && is_exact(op, a, b, v),
            (!a.wf() || !b.wf() || (op == Arith::Div && b.is_zero())) <==> r == Err::<
                Number,
                NumberError,
            >(NumberError::DivisionByZero),
    {
        if a.denom == 0 || b.denom == 0 {
            return Err(NumberError::DivisionByZero);
        }
        let r = match op {
            Arith::Add => checked_add(a, b),
            Arith::Sub => checked_sub(a, b),
            Arith::Mul => checked_mul(a, b),
            Arith::Div => {
                if b.numer == 0 {
                    return Err(NumberError::DivisionByZero);
                }
                checked_div(a, b)
            },
        };
        match r {
            Some(v) => Ok(v),
            None => Err(NumberError::Overflow),
        }
    }
}

} // verus!
