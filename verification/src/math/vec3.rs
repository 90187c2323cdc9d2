use vstd::prelude::*;

verus! {

use crate::math::utils::Scalar;

/// A 3-component vector over any `Scalar` type.  A plain value type: every
/// operation returns a new vector and nothing is mutated in place.
#[derive(Debug, Clone, PartialEq, Copy)]
pub struct Vec3<T: Scalar> {
    pub x: T,
    pub y: T,
    pub z: T,
}

/// Component-wise sum of two vectors.
pub open spec fn vadd_spec<T: Scalar>(a: Vec3<T>, b: Vec3<T>) -> Vec3<T> {
    Vec3 { x: a.x.add_spec(b.x), y: a.y.add_spec(b.y), z: a.z.add_spec(b.z) }
}

/// A scalar broadcast to all three components and added to each.
pub open spec fn vadd_scalar_spec<T: Scalar>(a: Vec3<T>, s: T) -> Vec3<T> {
    Vec3 { x: a.x.add_spec(s), y: a.y.add_spec(s), z: a.z.add_spec(s) }
}

/// Component-wise difference of two vectors.
pub open spec fn vsub_spec<T: Scalar>(a: Vec3<T>, b: Vec3<T>) -> Vec3<T> {
    Vec3 { x: a.x.sub_spec(b.x), y: a.y.sub_spec(b.y), z: a.z.sub_spec(b.z) }
}

/// A scalar broadcast to all three components and subtracted from each.
pub open spec fn vsub_scalar_spec<T: Scalar>(a: Vec3<T>, s: T) -> Vec3<T> {
    Vec3 { x: a.x.sub_spec(s), y: a.y.sub_spec(s), z: a.z.sub_spec(s) }
}

/// Every component multiplied by a scalar.
pub open spec fn vmul_scalar_spec<T: Scalar>(a: Vec3<T>, s: T) -> Vec3<T> {
    Vec3 { x: a.x.mul_spec(s), y: a.y.mul_spec(s), z: a.z.mul_spec(s) }
}

/// Every component divided by a scalar.
pub open spec fn vdiv_scalar_spec<T: Scalar>(a: Vec3<T>, s: T) -> Vec3<T> {
    Vec3 { x: a.x.div_spec(s), y: a.y.div_spec(s), z: a.z.div_spec(s) }
}

/// The inner product `a.x*b.x + a.y*b.y + a.z*b.z`, with the sums associated
/// left to right exactly as the executable code computes them.
pub open spec fn dot_spec<T: Scalar>(a: Vec3<T>, b: Vec3<T>) -> T {
    a.x.mul_spec(b.x).add_spec(a.y.mul_spec(b.y)).add_spec(a.z.mul_spec(b.z))
}

/// The standard right-hand-rule cross product.
pub open spec fn cross_spec<T: Scalar>(a: Vec3<T>, b: Vec3<T>) -> Vec3<T> {
    Vec3 {
        x: a.y.mul_spec(b.z).sub_spec(a.z.mul_spec(b.y)),
        y: a.z.mul_spec(b.x).sub_spec(a.x.mul_spec(b.z)),
        z: a.x.mul_spec(b.y).sub_spec(a.y.mul_spec(b.x)),
    }
}

/// Component-wise negation, written as subtraction from the additive identity.
pub open spec fn vneg_spec<T: Scalar>(a: Vec3<T>) -> Vec3<T> {
    Vec3 {
        x: T::zero_spec().sub_spec(a.x),
        y: T::zero_spec().sub_spec(a.y),
        z: T::zero_spec().sub_spec(a.z),
    }
}

impl<T: Scalar> Vec3<T> {
    /// Pure construction; no validation.
    pub fn new(x: T, y: T, z: T) -> (r: Self)
        ensures
            r.x == x,
            r.y == y,
            r.z == z,
    {
        Self { x, y, z }
    }

    /// The cross product of two vectors, as a static constructor.
    pub fn cross_vectors(a: &Self, b: &Self) -> (r: Self)
        ensures
            r == cross_spec(*a, *b),
    {
        Self::new(
            a.y.mul(b.z).sub(a.z.mul(b.y)),
            a.z.mul(b.x).sub(a.x.mul(b.z)),
            a.x.mul(b.y).sub(a.y.mul(b.x)),
        )
    }

    /// The inner product.
    pub fn dot(&self, other: &Self) -> (r: T)
        ensures
            r == dot_spec(*self, *other),
    {
        self.x.mul(other.x).add(self.y.mul(other.y)).add(self.z.mul(other.z))
    }

    /// The cross product with another vector.
    pub fn cross(&self, other: &Self) -> (r: Self)
        ensures
            r == cross_spec(*self, *other),
    {
        Self::new(
            self.y.mul(other.z).sub(self.z.mul(other.y)),
            self.z.mul(other.x).sub(self.x.mul(other.z)),
            self.x.mul(other.y).sub(self.y.mul(other.x)),
        )
    }

    /// Component-wise addition.
    pub fn add(self, other: Self) -> (r: Self)
        ensures
            r == vadd_spec(self, other),
    {
        Self::new(self.x.add(other.x), self.y.add(other.y), self.z.add(other.z))
    }

    /// Adds a scalar to every component.
    pub fn add_scalar(self, scalar: T) -> (r: Self)
        ensures
            r == vadd_scalar_spec(self, scalar),
    {
        Self::new(self.x.add(scalar), self.y.add(scalar), self.z.add(scalar))
    }

    /// Component-wise subtraction.
    pub fn sub(self, other: Self) -> (r: Self)
        ensures
            r == vsub_spec(self, other),
    {
        Self {
            x: self.x.sub(other.x),
            y: self.y.sub(other.y),
            z: self.z.sub(other.z),
        }
    }

    /// Subtracts a scalar from every component.
    pub fn sub_scalar(self, scalar: T) -> (r: Self)
        ensures
            r == vsub_scalar_spec(self, scalar),
    {
        Self::new(self.x.sub(scalar), self.y.sub(scalar), self.z.sub(scalar))
    }

    /// Multiplies every component by a scalar.
    pub fn mul_scalar(self, scalar: T) -> (r: Self)
        ensures
            r == vmul_scalar_spec(self, scalar),
    {
        Self {
            x: self.x.mul(scalar),
            y: self.y.mul(scalar),
            z: self.z.mul(scalar),
        }
    }

    /// Divides every component by a scalar.  Division by the additive identity
    /// is a fatal precondition violation, never a value: it is excluded here,
    /// and every caller must rule it out before calling.
    pub fn div_scalar(self, scalar: T) -> (r: Self)
        requires
            scalar != T::zero_spec(),
        ensures
            r == vdiv_scalar_spec(self, scalar),
    {
        Self {
            x: self.x.div(scalar),
            y: self.y.div(scalar),
            z: self.z.div(scalar),
        }
    }
}

/// The inner product is commutative: `a.dot(b)` equals `b.dot(a)` for all
/// vectors over any `Scalar`.
pub proof fn lemma_dot_commutes<T: Scalar>(a: Vec3<T>, b: Vec3<T>)
    ensures
        dot_spec(a, b) == dot_spec(b, a),
{
    T::scalar_laws(a.x, b.x);
    T::scalar_laws(a.y, b.y);
    T::scalar_laws(a.z, b.z);
}

/// The cross product is anti-commutative: `a.cross(b)` is the component-wise
/// negation of `b.cross(a)` for all vectors over any `Scalar`.
pub proof fn lemma_cross_anticommutes<T: Scalar>(a: Vec3<T>, b: Vec3<T>)
    ensures
        cross_spec(a, b) == vneg_spec(cross_spec(b, a)),
{
    T::scalar_laws(a.x, b.x);
    T::scalar_laws(a.x, b.y);
    T::scalar_laws(a.x, b.z);
    T::scalar_laws(a.y, b.x);
    T::scalar_laws(a.y, b.y);
    T::scalar_laws(a.y, b.z);
    T::scalar_laws(a.z, b.x);
    T::scalar_laws(a.z, b.y);
    T::scalar_laws(a.z, b.z);
    T::scalar_laws(b.y.mul_spec(a.z), b.z.mul_spec(a.y));
    T::scalar_laws(b.z.mul_spec(a.x), b.x.mul_spec(a.z));
    T::scalar_laws(b.x.mul_spec(a.y), b.y.mul_spec(a.x));
}

} // verus!
