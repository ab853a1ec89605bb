use vstd::prelude::*;

verus! {

/// Greatest common divisor of two naturals, by Euclid's recurrence.
pub open spec fn spec_gcd(a: nat, b: nat) -> nat
    decreases b,
{
    if b == 0 {
        a
    } else {
        spec_gcd(b, a % b)
    }
}

/// `d * k`, named so that it can serve as a trigger.
pub open spec fn times(d: nat, k: nat) -> nat {
    d * k
}

/// `d` divides `n`: some natural multiple of `d` equals `n`.
pub open spec fn divides(d: nat, n: nat) -> bool {
    exists|k: nat| n == #[trigger] times(d, k)
}

/// Unsigned integer types on which `gcd` works, seen as naturals.
pub trait NonNegativeInteger: Copy + Sized {
    /// The natural number that this value stands for.
    spec fn as_nat(&self) -> nat;

    fn is_zero(&self) -> (r: bool)
        ensures
            r == (self.as_nat() == 0),
    ;

    fn is_greater_than(&self, other: &Self) -> (r: bool)
        ensures
            r == (self.as_nat() > other.as_nat()),
    ;

    fn remainder(&self, divisor: &Self) -> (r: Self)
        requires
            divisor.as_nat() != 0,
        ensures
            r.as_nat() == self.as_nat() % divisor.as_nat(),
    ;
}

impl NonNegativeInteger for u8 {
    open spec fn as_nat(&self) -> nat {
        *self as nat
    }

    fn is_zero(&self) -> (r: bool) {
        *self == 0
    }

    fn is_greater_than(&self, other: &Self) -> (r: bool) {
        *self > *other
    }

    fn remainder(&self, divisor: &Self) -> (r: Self) {
        *self % *divisor
    }
}

impl NonNegativeInteger for u16 {
    open spec fn as_nat(&self) -> nat {
        *self as nat
    }

    fn is_zero(&self) -> (r: bool) {
        *self == 0
    }

    fn is_greater_than(&self, other: &Self) -> (r: bool) {
        *self > *other
    }

    fn remainder(&self, divisor: &Self) -> (r: Self) {
        *self % *divisor
    }
}

impl NonNegativeInteger for u32 {
    open spec fn as_nat(&self) -> nat {
        *self as nat
    }

    fn is_zero(&self) -> (r: bool) {
        *self == 0
    }

    fn is_greater_than(&self, other: &Self) -> (r: bool) {
        *self > *other
    }

    fn remainder(&self, divisor: &Self) -> (r: Self) {
        *self % *divisor
    }
}

impl NonNegativeInteger for u64 {
    open spec fn as_nat(&self) -> nat {
        *self as nat
    }

    fn is_zero(&self) -> (r: bool) {
        *self == 0
    }

    fn is_greater_than(&self, other: &Self) -> (r: bool) {
        *self > *other
    }

    fn remainder(&self, divisor: &Self) -> (r: Self) {
        *self % *divisor
    }
}

impl NonNegativeInteger for u128 {
    open spec fn as_nat(&self) -> nat {
        *self as nat
    }

    fn is_zero(&self) -> (r: bool) {
        *self == 0
    }

    fn is_greater_than(&self, other: &Self) -> (r: bool) {
        *self > *other
    }

    fn remainder(&self, divisor: &Self) -> (r: Self) {
        *self % *divisor
    }
}

impl NonNegativeInteger for usize {
    open spec fn as_nat(&self) -> nat {
        *self as nat
    }

    fn is_zero(&self) -> (r: bool) {
        *self == 0
    }

    fn is_greater_than(&self, other: &Self) -> (r: bool) {
        *self > *other
    }

    fn remainder(&self, divisor: &Self) -> (r: Self) {
        *self % *divisor
    }
}

/// Greatest common divisor of `a` and `b`; `gcd(0, 0)` is 0.
pub fn gcd<T: NonNegativeInteger>(a: T, b: T) -> (r: T)
    ensures
        r.as_nat() == spec_gcd(a.as_nat(), b.as_nat()),
{
    proof {
        lemma_gcd_commutative(a.as_nat(), b.as_nat());
    }
    let (mut x, mut y) = if a.is_greater_than(&b) {
        (a, b)
    } else {
        (b, a)
    };
    while !y.is_zero()
        invariant
            spec_gcd(x.as_nat(), y.as_nat()) == spec_gcd(a.as_nat(), b.as_nat()),
        decreases y.as_nat(),
    {
        let r = x.remainder(&y);
        x = y;
        y = r;
    }
    x
}

/// `gcd(a, 0) == a`.
pub proof fn lemma_gcd_zero_right(a: nat)
    ensures
        spec_gcd(a, 0) == a,
{
}

/// The greatest common divisor does not depend on the order of its arguments.
pub proof fn lemma_gcd_commutative(a: nat, b: nat)
    ensures
        spec_gcd(a, b) == spec_gcd(b, a),
{
    if a == b {
    } else if a < b {
        assert(a % b == a) by {
            vstd::arithmetic::div_mod::lemma_small_mod(a, b);
        }
        assert(spec_gcd(a, b) == spec_gcd(b, a % b));
    } else {
        assert(b % a == b) by {
            vstd::arithmetic::div_mod::lemma_small_mod(b, a);
        }
        assert(spec_gcd(b, a) == spec_gcd(a, b % a));
    }
}

/// The greatest common divisor divides both of its arguments.
pub proof fn lemma_gcd_divides_both(a: nat, b: nat)
    ensures
        divides(spec_gcd(a, b), a),
        divides(spec_gcd(a, b), b),
    decreases b,
{
    if b == 0 {
        assert(a == times(a, 1));
        assert(0 == times(a, 0));
    } else {
        let g = spec_gcd(b, a % b);
        lemma_gcd_divides_both(b, a % b);
        let k1 = choose|k: nat| b == #[trigger] times(g, k);
        let k2 = choose|k: nat| a % b == #[trigger] times(g, k);
        let q = a / b;
        assert(a == b * q + a % b) by {
            vstd::arithmetic::div_mod::lemma_fundamental_div_mod(a as int, b as int);
        }
        let k = k1 * q + k2;
        assert(a == times(g, k)) by (nonlinear_arith)
            requires
                b == g * k1,
                a % b == g * k2,
                a == b * q + a % b,
                k == k1 * q + k2,
        ;
    }
}

/// Every common divisor of `a` and `b` divides their greatest common divisor.
pub proof fn lemma_common_divisor_divides_gcd(a: nat, b: nat, d: nat)
    requires
        divides(d, a),
        divides(d, b),
    ensures
        divides(d, spec_gcd(a, b)),
    decreases b,
{
    if b == 0 {
    } else {
        let ka = choose|k: nat| a == #[trigger] times(d, k);
        let kb = choose|k: nat| b == #[trigger] times(d, k);
        let q = a / b;
        let r = a % b;
        assert(a == b * q + r) by {
            vstd::arithmetic::div_mod::lemma_fundamental_div_mod(a as int, b as int);
        }
        // r = d * ka - d * kb * q = d * (ka - kb * q), and that factor is a natural.
        assert(ka >= kb * q) by (nonlinear_arith)
            requires
                a == d * ka,
                b == d * kb,
                a == b * q + r,
                b > 0,
                r >= 0,
        ;
        let kr: nat = (ka - kb * q) as nat;
        assert(r == times(d, kr)) by (nonlinear_arith)
            requires
                a == d * ka,
                b == d * kb,
                a == b * q + r,
                kr == ka - kb * q,
        ;
        lemma_common_divisor_divides_gcd(b, r, d);
    }
}

} // verus!
