//! The capability contract a vector component type must satisfy:
//! compound arithmetic, a total order, copy-by-value semantics, and a zero
//! value. The vector types are generic over any type implementing it, so
//! one algorithm set serves every component type without per-type
//! specialization.

use vstd::prelude::*;

verus! {

/// Arithmetic and ordering capabilities of a vector component.
///
/// Each executable operation (`add_val`, ...) has a spec-level counterpart
/// (`add_of`, ...) and a guard (`can_add`, ...) that excludes exactly the
/// operand pairs on which the concrete type's native operation has no
/// representable result, so that a verified caller never panics. The order
/// `lte` must be total, and multiplication by a nonzero scalar must be
/// undone exactly by division; both demands are stated as proof
/// obligations that every implementation discharges.
pub trait Numeric: Sized + Copy {
    /// The total order that the range operations compare by.
    spec fn lte(self, other: Self) -> bool;

    /// The additive identity.
    spec fn zero() -> Self;

    /// Whether `self + other` is representable.
    spec fn can_add(self, other: Self) -> bool;

    /// The sum of `self` and `other`.
    spec fn add_of(self, other: Self) -> Self;

    /// Whether `self - other` is representable.
    spec fn can_sub(self, other: Self) -> bool;

    /// The difference of `self` and `other`.
    spec fn sub_of(self, other: Self) -> Self;

    /// Whether `self * other` is representable.
    spec fn can_mul(self, other: Self) -> bool;

    /// The product of `self` and `other`.
    spec fn mul_of(self, other: Self) -> Self;

    /// Whether `self / other` is defined and representable.
    spec fn can_div(self, other: Self) -> bool;

    /// The quotient of `self` by `other`, in the type's native semantics.
    spec fn div_of(self, other: Self) -> Self;

    fn add_val(self, other: Self) -> (r: Self)
        requires
            self.can_add(other),
        ensures
            r == self.add_of(other);

    fn sub_val(self, other: Self) -> (r: Self)
        requires
            self.can_sub(other),
        ensures
            r == self.sub_of(other);

    fn mul_val(self, other: Self) -> (r: Self)
        requires
            self.can_mul(other),
        ensures
            r == self.mul_of(other);

    fn div_val(self, other: Self) -> (r: Self)
        requires
            self.can_div(other),
        ensures
            r == self.div_of(other);

    fn lte_val(self, other: Self) -> (r: bool)
        ensures
            r == self.lte(other);

    proof fn lte_reflexive(x: Self)
        ensures
            x.lte(x);

    proof fn lte_transitive(x: Self, y: Self, z: Self)
        requires
            x.lte(y),
            y.lte(z),
        ensures
            x.lte(z);

    proof fn lte_antisymmetric(x: Self, y: Self)
        requires
            x.lte(y),
            y.lte(x),
        ensures
            x == y;

    proof fn lte_total(x: Self, y: Self)
        ensures
            x.lte(y) || y.lte(x);

    /// Subtracting what was added restores the original value.
    proof fn add_sub_inverse(x: Self, y: Self)
        requires
            x.can_add(y),
        ensures
            x.add_of(y).can_sub(y),
            x.add_of(y).sub_of(y) == x;

    /// Dividing by a nonzero factor undoes multiplying by it.
    proof fn mul_div_inverse(x: Self, s: Self)
        requires
            x.can_mul(s),
            s != Self::zero(),
        ensures
            x.mul_of(s).can_div(s),
            x.mul_of(s).div_of(s) == x;
}

/// The smaller of two values by `lte`; the first of two equal values.
pub open spec fn min_of<T: Numeric>(a: T, b: T) -> T {
    if a.lte(b) {
        a
    } else {
        b
    }
}

/// The larger of two values by `lte`; the second of two equal values.
pub open spec fn max_of<T: Numeric>(a: T, b: T) -> T {
    if a.lte(b) {
        b
    } else {
        a
    }
}

/// The literal clamping formula the range operations use: the value is
/// first bounded above by `min_val`, and the result bounded below by
/// `max_val`. The parameter roles mirror the operations' own, where the
/// `min` argument feeds the inner minimum and the `max` argument the
/// outer maximum.
pub open spec fn clamp_of<T: Numeric>(value: T, min_val: T, max_val: T) -> T {
    max_of(max_val, min_of(value, min_val))
}

/// Law: taking the minimum with the same bound twice gives the same value
/// as taking it once.
pub proof fn lemma_min_of_idempotent<T: Numeric>(a: T, b: T)
    ensures
        min_of(min_of(a, b), b) == min_of(a, b),
{
    T::lte_reflexive(b);
}

/// Law: taking the maximum with the same bound twice gives the same value
/// as taking it once.
pub proof fn lemma_max_of_idempotent<T: Numeric>(a: T, b: T)
    ensures
        max_of(max_of(a, b), b) == max_of(a, b),
{
    T::lte_reflexive(b);
}

/// Law: when `min_val` does not exceed `max_val`, the clamping formula
/// lands in the closed interval between them, whatever the input value.
pub proof fn lemma_clamp_of_in_bounds<T: Numeric>(value: T, min_val: T, max_val: T)
    requires
        min_val.lte(max_val),
    ensures
        min_val.lte(clamp_of(value, min_val, max_val)),
        clamp_of(value, min_val, max_val).lte(max_val),
{
    let m = min_of(value, min_val);
    T::lte_reflexive(max_val);
    T::lte_reflexive(min_val);
    if max_val.lte(m) {
        T::lte_transitive(min_val, max_val, m);
        if value.lte(min_val) {
            T::lte_transitive(value, min_val, max_val);
        }
    }
}

impl Numeric for i64 {
    open spec fn lte(self, other: Self) -> bool {
        self <= other
    }

    open spec fn zero() -> Self {
        0i64
    }

    open spec fn can_add(self, other: Self) -> bool {
        i64::MIN <= self + other <= i64::MAX
    }

    open spec fn add_of(self, other: Self) -> Self {
        (self + other) as i64
    }

    open spec fn can_sub(self, other: Self) -> bool {
        i64::MIN <= self - other <= i64::MAX
    }

    open spec fn sub_of(self, other: Self) -> Self {
        (self - other) as i64
    }

    open spec fn can_mul(self, other: Self) -> bool {
        i64::MIN <= self * other <= i64::MAX
    }

    open spec fn mul_of(self, other: Self) -> Self {
        (self * other) as i64
    }

    open spec fn can_div(self, other: Self) -> bool {
        other != 0 && !(self == i64::MIN && other == -1)
    }

    open spec fn div_of(self, other: Self) -> Self {
        if self >= 0 {
            ((self as int) / (other as int)) as i64
        } else {
            (-((-(self as int)) / (other as int))) as i64
        }
    }

    fn add_val(self, other: Self) -> (r: Self) {
        self + other
    }

    fn sub_val(self, other: Self) -> (r: Self) {
        self - other
    }

    fn mul_val(self, other: Self) -> (r: Self) {
        self * other
    }

    fn div_val(self, other: Self) -> (r: Self) {
        self / other
    }

    fn lte_val(self, other: Self) -> (r: bool) {
        self <= other
    }

    proof fn lte_reflexive(x: Self) {
    }

    proof fn lte_transitive(x: Self, y: Self, z: Self) {
    }

    proof fn lte_antisymmetric(x: Self, y: Self) {
    }

    proof fn lte_total(x: Self, y: Self) {
    }

    proof fn add_sub_inverse(x: Self, y: Self) {
    }

    proof fn mul_div_inverse(x: Self, s: Self) {
        let m: i64 = (x * s) as i64;
        assert(m == x * s);
        if s == -1 {
            assert(x * s == -x) by (nonlinear_arith)
                requires
                    s == -1,
            ;
        }
        if m >= 0 {
            assert((m as int) / (s as int) == x) by (nonlinear_arith)
                requires
                    s != 0,
                    m == x * s,
            ;
        } else {
            assert((-(m as int)) / (s as int) == -x) by (nonlinear_arith)
                requires
                    s != 0,
                    m == x * s,
            ;
        }
    }
}

impl Numeric for i32 {
    open spec fn lte(self, other: Self) -> bool {
        self <= other
    }

    open spec fn zero() -> Self {
        0i32
    }

    open spec fn can_add(self, other: Self) -> bool {
        i32::MIN <= self + other <= i32::MAX
    }

    open spec fn add_of(self, other: Self) -> Self {
        (self + other) as i32
    }

    open spec fn can_sub(self, other: Self) -> bool {
        i32::MIN <= self - other <= i32::MAX
    }

    open spec fn sub_of(self, other: Self) -> Self {
        (self - other) as i32
    }

    open spec fn can_mul(self, other: Self) -> bool {
        i32::MIN <= self * other <= i32::MAX
    }

    open spec fn mul_of(self, other: Self) -> Self {
        (self * other) as i32
    }

    open spec fn can_div(self, other: Self) -> bool {
        other != 0 && !(self == i32::MIN && other == -1)
    }

    open spec fn div_of(self, other: Self) -> Self {
        if self >= 0 {
            ((self as int) / (other as int)) as i32
        } else {
            (-((-(self as int)) / (other as int))) as i32
        }
    }

    fn add_val(self, other: Self) -> (r: Self) {
        self + other
    }

    fn sub_val(self, other: Self) -> (r: Self) {
        self - other
    }

    fn mul_val(self, other: Self) -> (r: Self) {
        self * other
    }

    fn div_val(self, other: Self) -> (r: Self) {
        self / other
    }

    fn lte_val(self, other: Self) -> (r: bool) {
        self <= other
    }

    proof fn lte_reflexive(x: Self) {
    }

    proof fn lte_transitive(x: Self, y: Self, z: Self) {
    }

    proof fn lte_antisymmetric(x: Self, y: Self) {
    }

    proof fn lte_total(x: Self, y: Self) {
    }

    proof fn add_sub_inverse(x: Self, y: Self) {
    }

    proof fn mul_div_inverse(x: Self, s: Self) {
        let m: i32 = (x * s) as i32;
        assert(m == x * s);
        if s == -1 {
            assert(x * s == -x) by (nonlinear_arith)
                requires
                    s == -1,
            ;
        }
        if m >= 0 {
            assert((m as int) / (s as int) == x) by (nonlinear_arith)
                requires
                    s != 0,
                    m == x * s,
            ;
        } else {
            assert((-(m as int)) / (s as int) == -x) by (nonlinear_arith)
                requires
                    s != 0,
                    m == x * s,
            ;
        }
    }
}

} // verus!
