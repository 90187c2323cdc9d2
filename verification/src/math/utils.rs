use vstd::prelude::*;

verus! {

use vstd::arithmetic::div_mod::{
    lemma_div_basics,
    lemma_div_nonincreasing,
    lemma_div_pos_is_pos,
    lemma_div_is_ordered_by_denominator,
    lemma_mod_add_multiples_vanish,
    lemma_small_mod,
};
use vstd::arithmetic::mul::{lemma_mul_basics, lemma_mul_is_commutative};

/// Truncating integer division (rounds toward zero), the semantics of `/` on
/// Rust's primitive integers, expressed over unbounded integers.  Total: yields
/// zero when the divisor is zero, though no caller relies on that case.
pub open spec fn trunc_div_int(a: int, b: int) -> int {
    if b == 0 {
        0
    } else if a == 0 {
        0
    } else if a > 0 && b > 0 {
        a / b
    } else if a < 0 && b < 0 {
        (a * -1) / (b * -1)
    } else if a < 0 {
        ((a * -1) / b) * -1
    } else {
        (a / (b * -1)) * -1
    }
}

/// The numeric capability a component type must supply: identity elements and
/// value-semantics arithmetic.  Each executable operation is pinned to a
/// specification-level counterpart, and `scalar_laws` obliges every
/// implementation to prove the conventional identities that the vector and
/// matrix laws rest on.
pub trait Scalar: Sized + Copy {
    /// The additive identity, at the specification level.
    spec fn zero_spec() -> Self;

    /// The multiplicative identity, at the specification level.
    spec fn one_spec() -> Self;

    /// What `add` returns.
    spec fn add_spec(self, rhs: Self) -> Self;

    /// What `sub` returns.
    spec fn sub_spec(self, rhs: Self) -> Self;

    /// What `mul` returns.
    spec fn mul_spec(self, rhs: Self) -> Self;

    /// What `div` returns on a nonzero divisor.
    spec fn div_spec(self, rhs: Self) -> Self;

    /// The additive identity.
    fn zero() -> (r: Self)
        ensures
            r == Self::zero_spec(),
    ;

    /// The multiplicative identity.
    fn one() -> (r: Self)
        ensures
            r == Self::one_spec(),
    ;

    /// Addition.
    fn add(self, rhs: Self) -> (r: Self)
        ensures
            r == self.add_spec(rhs),
    ;

    /// Subtraction.
    fn sub(self, rhs: Self) -> (r: Self)
        ensures
            r == self.sub_spec(rhs),
    ;

    /// Multiplication.
    fn mul(self, rhs: Self) -> (r: Self)
        ensures
            r == self.mul_spec(rhs),
    ;

    /// Division.  Dividing by the additive identity is a precondition
    /// violation, so it is excluded here; callers must rule it out.
    fn div(self, rhs: Self) -> (r: Self)
        requires
            rhs != Self::zero_spec(),
        ensures
            r == self.div_spec(rhs),
    ;

    /// Equality comparison against the additive identity.
    fn is_zero(self) -> (r: bool)
        ensures
            r == (self == Self::zero_spec()),
    ;

    /// The arithmetic identities every implementation must establish:
    /// commutativity of addition and multiplication, the identity elements
    /// behaving as such, annihilation by the additive identity, negation via
    /// subtraction from the additive identity, and the two identities being
    /// distinct.
    proof fn scalar_laws(a: Self, b: Self)
        ensures
            a.add_spec(b) == b.add_spec(a),
            a.mul_spec(b) == b.mul_spec(a),
            a.add_spec(Self::zero_spec()) == a,
            a.sub_spec(Self::zero_spec()) == a,
            a.mul_spec(Self::one_spec()) == a,
            a.mul_spec(Self::zero_spec()) == Self::zero_spec(),
            Self::zero_spec().sub_spec(a.sub_spec(b)) == b.sub_spec(a),
            a.div_spec(Self::one_spec()) == a,
            Self::one_spec() != Self::zero_spec(),
    ;
}

/// The signed integer instance.  Arithmetic wraps around at the
/// representation boundary, which is what the two's-complement representation
/// itself provides; no overflow policy beyond that is imposed.  Division
/// truncates toward zero.
impl Scalar for i32 {
    open spec fn zero_spec() -> i32 {
        0
    }

    open spec fn one_spec() -> i32 {
        1
    }

    open spec fn add_spec(self, rhs: i32) -> i32 {
        vstd::wrapping::i32_specs::wrapping_add(self, rhs)
    }

    open spec fn sub_spec(self, rhs: i32) -> i32 {
        vstd::wrapping::i32_specs::wrapping_sub(self, rhs)
    }

    open spec fn mul_spec(self, rhs: i32) -> i32 {
        vstd::wrapping::i32_specs::wrapping_mul(self, rhs)
    }

    open spec fn div_spec(self, rhs: i32) -> i32 {
        if self == i32::MIN && rhs == -1 {
            i32::MIN
        } else {
            trunc_div_int(self as int, rhs as int) as i32
        }
    }

    fn zero() -> i32 {
        0
    }

    fn one() -> i32 {
        1
    }

    fn add(self, rhs: i32) -> i32 {
        self.wrapping_add(rhs)
    }

    fn sub(self, rhs: i32) -> i32 {
        self.wrapping_sub(rhs)
    }

    fn mul(self, rhs: i32) -> i32 {
        self.wrapping_mul(rhs)
    }

    fn div(self, rhs: i32) -> (r: i32) {
        proof {
            let x = self as int;
            let d = rhs as int;
            if x > 0 && d > 0 {
                lemma_div_pos_is_pos(x, d);
                lemma_div_nonincreasing(x, d);
            } else if x < 0 && d < 0 {
                lemma_div_pos_is_pos(x * -1, d * -1);
                lemma_div_nonincreasing(x * -1, d * -1);
                if d == -1 {
                    lemma_div_basics(x * -1);
                } else {
                    lemma_div_is_ordered_by_denominator(x * -1, 2, d * -1);
                    lemma_div_nonincreasing(x * -1, 2);
                }
            } else if x < 0 {
                lemma_div_pos_is_pos(x * -1, d);
                lemma_div_nonincreasing(x * -1, d);
            } else if x > 0 {
                lemma_div_pos_is_pos(x, d * -1);
                lemma_div_nonincreasing(x, d * -1);
            }
        }
        match self.checked_div(rhs) {
            Some(q) => q,
            None => i32::MIN,
        }
    }

    fn is_zero(self) -> bool {
        self == 0
    }

    proof fn scalar_laws(a: i32, b: i32) {
        let m: int = 0x1_0000_0000;
        lemma_mul_is_commutative(a as int, b as int);
        lemma_mul_basics(a as int);
        lemma_small_mod(0, m as nat);
        if a >= 0 {
            lemma_small_mod(a as nat, m as nat);
        } else {
            lemma_mod_add_multiples_vanish(a as int, m);
            lemma_small_mod((a + m) as nat, m as nat);
        }
        lemma_div_basics(a as int);
        lemma_div_basics((a as int) * -1);
    }
}

/// The unsigned integer instance.  Arithmetic wraps around at the
/// representation boundary, which is what the representation itself provides;
/// no overflow policy beyond that is imposed.  Division truncates.
impl Scalar for u32 {
    open spec fn zero_spec() -> u32 {
        0
    }

    open spec fn one_spec() -> u32 {
        1
    }

    open spec fn add_spec(self, rhs: u32) -> u32 {
        vstd::wrapping::u32_specs::wrapping_add(self, rhs)
    }

    open spec fn sub_spec(self, rhs: u32) -> u32 {
        vstd::wrapping::u32_specs::wrapping_sub(self, rhs)
    }

    open spec fn mul_spec(self, rhs: u32) -> u32 {
        vstd::wrapping::u32_specs::wrapping_mul(self, rhs)
    }

    open spec fn div_spec(self, rhs: u32) -> u32 {
        if rhs == 0 {
            0
        } else {
            (self as int / rhs as int) as u32
        }
    }

    fn zero() -> u32 {
        0
    }

    fn one() -> u32 {
        1
    }

    fn add(self, rhs: u32) -> u32 {
        self.wrapping_add(rhs)
    }

    fn sub(self, rhs: u32) -> u32 {
        self.wrapping_sub(rhs)
    }

    fn mul(self, rhs: u32) -> u32 {
        self.wrapping_mul(rhs)
    }

    fn div(self, rhs: u32) -> (r: u32) {
        proof {
            lemma_div_pos_is_pos(self as int, rhs as int);
            lemma_div_nonincreasing(self as int, rhs as int);
        }
        self / rhs
    }

    fn is_zero(self) -> bool {
        self == 0
    }

    proof fn scalar_laws(a: u32, b: u32) {
        let m: int = 0x1_0000_0000;
        lemma_mul_is_commutative(a as int, b as int);
        lemma_mul_basics(a as int);
        lemma_small_mod(0, m as nat);
        lemma_small_mod(a as nat, m as nat);
        lemma_div_basics(a as int);
    }
}

} // verus!
