//! The four-component vector.

use vstd::prelude::*;

use crate::scalar::{
    Numeric, clamp_of, lemma_clamp_of_in_bounds, lemma_max_of_idempotent, lemma_min_of_idempotent,
    max_of, min_of,
};
use crate::IndexOutOfRange;

verus! {

/// A four-component numeric vector, a plain value aggregate: any
/// quadruple of component values is legal, and it is copied and moved as
/// a unit.
#[derive(Debug, Clone, Copy)]
pub struct Vector4<T> {
    pub x: T,
    pub y: T,
    pub z: T,
    pub w: T,
}

impl<T> View for Vector4<T> {
    type V = Seq<T>;

    open spec fn view(&self) -> Seq<T> {
        seq![self.x, self.y, self.z, self.w]
    }
}

impl<T: Numeric> Vector4<T> {
    pub open spec fn can_add_each(self, v: Self) -> bool {
        self.x.can_add(v.x) && self.y.can_add(v.y) && self.z.can_add(v.z) && self.w.can_add(v.w)
    }

    pub open spec fn add_each(self, v: Self) -> Self {
        Vector4 {
            x: self.x.add_of(v.x),
            y: self.y.add_of(v.y),
            z: self.z.add_of(v.z),
            w: self.w.add_of(v.w),
        }
    }

    pub open spec fn can_add_scalar(self, s: T) -> bool {
        self.x.can_add(s) && self.y.can_add(s) && self.z.can_add(s) && self.w.can_add(s)
    }

    pub open spec fn add_scalar_each(self, s: T) -> Self {
        Vector4 {
            x: self.x.add_of(s),
            y: self.y.add_of(s),
            z: self.z.add_of(s),
            w: self.w.add_of(s),
        }
    }

    pub open spec fn can_sub_each(self, v: Self) -> bool {
        self.x.can_sub(v.x) && self.y.can_sub(v.y) && self.z.can_sub(v.z) && self.w.can_sub(v.w)
    }

    pub open spec fn sub_each(self, v: Self) -> Self {
        Vector4 {
            x: self.x.sub_of(v.x),
            y: self.y.sub_of(v.y),
            z: self.z.sub_of(v.z),
            w: self.w.sub_of(v.w),
        }
    }

    pub open spec fn can_sub_scalar(self, s: T) -> bool {
        self.x.can_sub(s) && self.y.can_sub(s) && self.z.can_sub(s) && self.w.can_sub(s)
    }

    pub open spec fn sub_scalar_each(self, s: T) -> Self {
        Vector4 {
            x: self.x.sub_of(s),
            y: self.y.sub_of(s),
            z: self.z.sub_of(s),
            w: self.w.sub_of(s),
        }
    }

    pub open spec fn can_mul_each(self, v: Self) -> bool {
        self.x.can_mul(v.x) && self.y.can_mul(v.y) && self.z.can_mul(v.z) && self.w.can_mul(v.w)
    }

    pub open spec fn mul_each(self, v: Self) -> Self {
        Vector4 {
            x: self.x.mul_of(v.x),
            y: self.y.mul_of(v.y),
            z: self.z.mul_of(v.z),
            w: self.w.mul_of(v.w),
        }
    }

    pub open spec fn can_mul_scalar(self, s: T) -> bool {
        self.x.can_mul(s) && self.y.can_mul(s) && self.z.can_mul(s) && self.w.can_mul(s)
    }

    pub open spec fn mul_scalar_each(self, s: T) -> Self {
        Vector4 {
            x: self.x.mul_of(s),
            y: self.y.mul_of(s),
            z: self.z.mul_of(s),
            w: self.w.mul_of(s),
        }
    }

    pub open spec fn can_div_each(self, v: Self) -> bool {
        self.x.can_div(v.x) && self.y.can_div(v.y) && self.z.can_div(v.z) && self.w.can_div(v.w)
    }

    pub open spec fn div_each(self, v: Self) -> Self {
        Vector4 {
            x: self.x.div_of(v.x),
            y: self.y.div_of(v.y),
            z: self.z.div_of(v.z),
            w: self.w.div_of(v.w),
        }
    }

    pub open spec fn can_div_scalar(self, s: T) -> bool {
        self.x.can_div(s) && self.y.can_div(s) && self.z.can_div(s) && self.w.can_div(s)
    }

    pub open spec fn div_scalar_each(self, s: T) -> Self {
        Vector4 {
            x: self.x.div_of(s),
            y: self.y.div_of(s),
            z: self.z.div_of(s),
            w: self.w.div_of(s),
        }
    }

    pub open spec fn min_each(self, v: Self) -> Self {
        Vector4 {
            x: min_of(self.x, v.x),
            y: min_of(self.y, v.y),
            z: min_of(self.z, v.z),
            w: min_of(self.w, v.w),
        }
    }

    pub open spec fn max_each(self, v: Self) -> Self {
        Vector4 {
            x: max_of(self.x, v.x),
            y: max_of(self.y, v.y),
            z: max_of(self.z, v.z),
            w: max_of(self.w, v.w),
        }
    }

    pub open spec fn clamp_each(self, min_v: Self, max_v: Self) -> Self {
        Vector4 {
            x: clamp_of(self.x, min_v.x, max_v.x),
            y: clamp_of(self.y, min_v.y, max_v.y),
            z: clamp_of(self.z, min_v.z, max_v.z),
            w: clamp_of(self.w, min_v.w, max_v.w),
        }
    }

    pub open spec fn clamp_scalar_each(self, min_val: T, max_val: T) -> Self {
        Vector4 {
            x: clamp_of(self.x, min_val, max_val),
            y: clamp_of(self.y, min_val, max_val),
            z: clamp_of(self.z, min_val, max_val),
            w: clamp_of(self.w, min_val, max_val),
        }
    }

    /// Constructs a vector from per-field values, in declared field order.
    #[inline]
    pub fn new(x: T, y: T, z: T, w: T) -> (r: Self)
        ensures
            r.x == x,
            r.y == y,
            r.z == z,
            r.w == w,
    {
        Vector4 { x, y, z, w }
    }

    /// Overwrites all fields in one call, in declared field order.
    pub fn set(&mut self, x: T, y: T, z: T, w: T)
        ensures
            final(self).x == x,
            final(self).y == y,
            final(self).z == z,
            final(self).w == w,
    {
        self.x = x;
        self.y = y;
        self.z = z;
        self.w = w;
    }

    /// Overwrites every field with the same scalar value.
    pub fn set_scalar(&mut self, scalar: T)
        ensures
            final(self).x == scalar,
            final(self).y == scalar,
            final(self).z == scalar,
            final(self).w == scalar,
    {
        self.x = scalar;
        self.y = scalar;
        self.z = scalar;
        self.w = scalar;
    }

    /// Element-wise compound addition against another vector.
    pub fn add(&mut self, v: &Self)
        requires
            old(self).can_add_each(*v),
        ensures
            *final(self) == old(self).add_each(*v),
    {
        self.x = self.x.add_val(v.x);
        self.y = self.y.add_val(v.y);
        self.z = self.z.add_val(v.z);
        self.w = self.w.add_val(v.w);
    }

    /// Adds the scalar to every field.
    pub fn add_scalar(&mut self, scalar: T)
        requires
            old(self).can_add_scalar(scalar),
        ensures
            *final(self) == old(self).add_scalar_each(scalar),
    {
        self.x = self.x.add_val(scalar);
        self.y = self.y.add_val(scalar);
        self.z = self.z.add_val(scalar);
        self.w = self.w.add_val(scalar);
    }

    /// Overwrites every field with `a.field + b.field`; the receiver's
    /// old value does not enter the result.
    pub fn add_vectors(&mut self, a: &Self, b: &Self)
        requires
            a.can_add_each(*b),
        ensures
            *final(self) == a.add_each(*b),
    {
        self.x = a.x.add_val(b.x);
        self.y = a.y.add_val(b.y);
        self.z = a.z.add_val(b.z);
        self.w = a.w.add_val(b.w);
    }

    /// Overwrites every field with `v.field * s`. Despite the name this
    /// sets rather than accumulates, mirroring an established external
    /// numeric-library convention.
    pub fn add_scaled_vectors(&mut self, v: &Self, s: T)
        requires
            v.can_mul_scalar(s),
        ensures
            *final(self) == v.mul_scalar_each(s),
    {
        self.x = v.x.mul_val(s);
        self.y = v.y.mul_val(s);
        self.z = v.z.mul_val(s);
        self.w = v.w.mul_val(s);
    }

    /// Element-wise compound subtraction against another vector.
    pub fn sub(&mut self, v: &Self)
        requires
            old(self).can_sub_each(*v),
        ensures
            *final(self) == old(self).sub_each(*v),
    {
        self.x = self.x.sub_val(v.x);
        self.y = self.y.sub_val(v.y);
        self.z = self.z.sub_val(v.z);
        self.w = self.w.sub_val(v.w);
    }

    /// Subtracts the scalar from every field.
    pub fn sub_scalar(&mut self, scalar: T)
        requires
            old(self).can_sub_scalar(scalar),
        ensures
            *final(self) == old(self).sub_scalar_each(scalar),
    {
        self.x = self.x.sub_val(scalar);
        self.y = self.y.sub_val(scalar);
        self.z = self.z.sub_val(scalar);
        self.w = self.w.sub_val(scalar);
    }

    /// Overwrites every field with `a.field - b.field`.
    pub fn sub_vectors(&mut self, a: &Self, b: &Self)
        requires
            a.can_sub_each(*b),
        ensures
            *final(self) == a.sub_each(*b),
    {
        self.x = a.x.sub_val(b.x);
        self.y = a.y.sub_val(b.y);
        self.z = a.z.sub_val(b.z);
        self.w = a.w.sub_val(b.w);
    }

    /// Element-wise compound multiplication against another vector.
    pub fn multiply(&mut self, v: &Self)
        requires
            old(self).can_mul_each(*v),
        ensures
            *final(self) == old(self).mul_each(*v),
    {
        self.x = self.x.mul_val(v.x);
        self.y = self.y.mul_val(v.y);
        self.z = self.z.mul_val(v.z);
        self.w = self.w.mul_val(v.w);
    }

    /// Scales every field by the scalar.
    pub fn multiply_scalar(&mut self, scalar: T)
        requires
            old(self).can_mul_scalar(scalar),
        ensures
            *final(self) == old(self).mul_scalar_each(scalar),
    {
        self.x = self.x.mul_val(scalar);
        self.y = self.y.mul_val(scalar);
        self.z = self.z.mul_val(scalar);
        self.w = self.w.mul_val(scalar);
    }

    /// Element-wise compound division against another vector.
    pub fn divide(&mut self, v: &Self)
        requires
            old(self).can_div_each(*v),
        ensures
            *final(self) == old(self).div_each(*v),
    {
        self.x = self.x.div_val(v.x);
        self.y = self.y.div_val(v.y);
        self.z = self.z.div_val(v.z);
        self.w = self.w.div_val(v.w);
    }

    /// Divides every field by the scalar.
    pub fn divide_scalar(&mut self, scalar: T)
        requires
            old(self).can_div_scalar(scalar),
        ensures
            *final(self) == old(self).div_scalar_each(scalar),
    {
        self.x = self.x.div_val(scalar);
        self.y = self.y.div_val(scalar);
        self.z = self.z.div_val(scalar);
        self.w = self.w.div_val(scalar);
    }

    /// Keeps, field by field, the smaller of the receiver's and `v`'s value.
    pub fn min(&mut self, v: Self)
        ensures
            *final(self) == old(self).min_each(v),
    {
        self.x = if self.x.lte_val(v.x) { self.x } else { v.x };
        self.y = if self.y.lte_val(v.y) { self.y } else { v.y };
        self.z = if self.z.lte_val(v.z) { self.z } else { v.z };
        self.w = if self.w.lte_val(v.w) { self.w } else { v.w };
    }

    /// Keeps, field by field, the larger of the receiver's and `v`'s value.
    pub fn max(&mut self, v: Self)
        ensures
            *final(self) == old(self).max_each(v),
    {
        self.x = if self.x.lte_val(v.x) { v.x } else { self.x };
        self.y = if self.y.lte_val(v.y) { v.y } else { self.y };
        self.z = if self.z.lte_val(v.z) { v.z } else { self.z };
        self.w = if self.w.lte_val(v.w) { v.w } else { self.w };
    }

    /// Applies the literal formula `max(max.field, min(self.field,
    /// min.field))` to every field. Note the inverted parameter roles:
    /// the vector passed as `min` feeds the inner minimum and the vector
    /// passed as `max` the outer maximum.
    pub fn clamp(&mut self, min: Self, max: Self)
        ensures
            *final(self) == old(self).clamp_each(min, max),
    {
        let mx: T = if self.x.lte_val(min.x) { self.x } else { min.x };
        self.x = if max.x.lte_val(mx) { mx } else { max.x };
        let my: T = if self.y.lte_val(min.y) { self.y } else { min.y };
        self.y = if max.y.lte_val(my) { my } else { max.y };
        let mz: T = if self.z.lte_val(min.z) { self.z } else { min.z };
        self.z = if max.z.lte_val(mz) { mz } else { max.z };
        let mw: T = if self.w.lte_val(min.w) { self.w } else { min.w };
        self.w = if max.w.lte_val(mw) { mw } else { max.w };
    }

    /// Applies the literal formula `max(max_val, min(self.field,
    /// min_val))` to every field, with the same inverted parameter roles
    /// as `clamp`.
    pub fn clamp_scalar(&mut self, min_val: T, max_val: T)
        ensures
            *final(self) == old(self).clamp_scalar_each(min_val, max_val),
    {
        let mx: T = if self.x.lte_val(min_val) { self.x } else { min_val };
        self.x = if max_val.lte_val(mx) { mx } else { max_val };
        let my: T = if self.y.lte_val(min_val) { self.y } else { min_val };
        self.y = if max_val.lte_val(my) { my } else { max_val };
        let mz: T = if self.z.lte_val(min_val) { self.z } else { min_val };
        self.z = if max_val.lte_val(mz) { mz } else { max_val };
        let mw: T = if self.w.lte_val(min_val) { self.w } else { min_val };
        self.w = if max_val.lte_val(mw) { mw } else { max_val };
    }

    /// Law: summing two vectors and then subtracting the second recovers
    /// the first, absent overflow. This covers both the compound form
    /// (`add` then `sub` on one receiver) and the overwriting form
    /// (`add_vectors` then `sub_vectors`), whose results the spec
    /// functions above describe.
    pub proof fn lemma_add_sub_inverse(a: Self, v: Self)
        requires
            a.can_add_each(v),
        ensures
            a.add_each(v).can_sub_each(v),
            a.add_each(v).sub_each(v) == a,
    {
        T::add_sub_inverse(a.x, v.x);
        T::add_sub_inverse(a.y, v.y);
        T::add_sub_inverse(a.z, v.z);
        T::add_sub_inverse(a.w, v.w);
    }

    /// Law: scaling by a nonzero scalar and then dividing by it recovers
    /// the original vector, absent overflow.
    pub proof fn lemma_mul_div_scalar_inverse(a: Self, s: T)
        requires
            a.can_mul_scalar(s),
            s != T::zero(),
        ensures
            a.mul_scalar_each(s).can_div_scalar(s),
            a.mul_scalar_each(s).div_scalar_each(s) == a,
    {
        T::mul_div_inverse(a.x, s);
        T::mul_div_inverse(a.y, s);
        T::mul_div_inverse(a.z, s);
        T::mul_div_inverse(a.w, s);
    }

    /// Law: `min` and `max` with a fixed argument are idempotent; a
    /// second application changes nothing.
    pub proof fn lemma_min_max_idempotent(a: Self, v: Self)
        ensures
            a.min_each(v).min_each(v) == a.min_each(v),
            a.max_each(v).max_each(v) == a.max_each(v),
    {
        lemma_min_of_idempotent::<T>(a.x, v.x);
        lemma_min_of_idempotent::<T>(a.y, v.y);
        lemma_min_of_idempotent::<T>(a.z, v.z);
        lemma_min_of_idempotent::<T>(a.w, v.w);
        lemma_max_of_idempotent::<T>(a.x, v.x);
        lemma_max_of_idempotent::<T>(a.y, v.y);
        lemma_max_of_idempotent::<T>(a.z, v.z);
        lemma_max_of_idempotent::<T>(a.w, v.w);
    }

    /// Law: when `min_val` does not exceed `max_val`, no field of a
    /// clamped vector lies outside the closed interval between them.
    pub proof fn lemma_clamp_scalar_in_bounds(a: Self, min_val: T, max_val: T)
        requires
            min_val.lte(max_val),
        ensures
            min_val.lte(a.clamp_scalar_each(min_val, max_val).x),
            a.clamp_scalar_each(min_val, max_val).x.lte(max_val),
            min_val.lte(a.clamp_scalar_each(min_val, max_val).y),
            a.clamp_scalar_each(min_val, max_val).y.lte(max_val),
            min_val.lte(a.clamp_scalar_each(min_val, max_val).z),
            a.clamp_scalar_each(min_val, max_val).z.lte(max_val),
            min_val.lte(a.clamp_scalar_each(min_val, max_val).w),
            a.clamp_scalar_each(min_val, max_val).w.lte(max_val),
    {
        lemma_clamp_of_in_bounds::<T>(a.x, min_val, max_val);
        lemma_clamp_of_in_bounds::<T>(a.y, min_val, max_val);
        lemma_clamp_of_in_bounds::<T>(a.z, min_val, max_val);
        lemma_clamp_of_in_bounds::<T>(a.w, min_val, max_val);
    }
}

impl<T: Copy> Vector4<T> {
    /// Overwrites only the field at `index`, counted in declared field
    /// order; fails with the offending index when `index` is not a valid
    /// position, leaving the vector unchanged.
    pub fn set_component(&mut self, index: usize, value: T) -> (r: Result<(), IndexOutOfRange>)
        ensures
            index < 4 ==> r == Ok::<(), IndexOutOfRange>(())
                && final(self)@ == old(self)@.update(index as int, value),
            index >= 4 ==> r == Err::<(), IndexOutOfRange>((IndexOutOfRange { index }))
                && *final(self) == *old(self),
    {
        match index {
            0 => {
                self.x = value;
                proof {
                    assert(self@ =~= old(self)@.update(index as int, value));
                }
                Ok(())
            },
            1 => {
                self.y = value;
                proof {
                    assert(self@ =~= old(self)@.update(index as int, value));
                }
                Ok(())
            },
            2 => {
                self.z = value;
                proof {
                    assert(self@ =~= old(self)@.update(index as int, value));
                }
                Ok(())
            },
            3 => {
                self.w = value;
                proof {
                    assert(self@ =~= old(self)@.update(index as int, value));
                }
                Ok(())
            },
            _ => Err(IndexOutOfRange { index }),
        }
    }

    /// Returns the field at `index`, counted in declared field order;
    /// fails with the offending index when `index` is not a valid
    /// position.
    pub fn get_component(&self, index: usize) -> (r: Result<T, IndexOutOfRange>)
        ensures
            index < 4 ==> r == Ok::<T, IndexOutOfRange>(self@[index as int]),
            index >= 4 ==> r == Err::<T, IndexOutOfRange>((IndexOutOfRange { index })),
    {
        match index {
            0 => Ok(self.x),
            1 => Ok(self.y),
            2 => Ok(self.z),
            3 => Ok(self.w),
            _ => Err(IndexOutOfRange { index }),
        }
    }

    /// Law: reading a component after writing it returns the written
    /// value, and every other component keeps its value.
    pub proof fn lemma_component_round_trip(a: Self, index: int, value: T)
        requires
            0 <= index < 4,
        ensures
            a@.update(index, value)[index] == value,
            forall|j: int| 0 <= j < 4 && j != index ==> a@.update(index, value)[j] == a@[j],
    {
    }
}

} // verus!
