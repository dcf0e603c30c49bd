//! A minimal two-component vector type with elementwise arithmetic,
//! scalar scaling, dot product, negation, and indexed component access.
//!
//! `Vector2<T>` is a plain pair of scalars of one numeric type `T`. Every
//! operation is pure and returns a new value; nothing is mutated in place.
//! The arithmetic operators are overloaded through the standard `core::ops`
//! traits, and each carries a specification relating the result to the
//! components of the operands.

use vstd::prelude::*;

verus! {

use vstd::std_specs::ops::AddSpec;
use vstd::std_specs::ops::SubSpec;
use vstd::std_specs::ops::MulSpec;
use vstd::std_specs::ops::NegSpec;

/// A vector with two components of the same scalar type.
#[derive(Debug, Clone, Copy)]
pub struct Vector2<T: Copy> {
    /// Component at index 0.
    pub e0: T,
    /// Component at index 1.
    pub e1: T,
}

impl<T: Copy> Vector2<T> {
    /// Build a vector from its two components. Any two values of `T` are
    /// accepted; there is nothing to validate.
    #[inline(always)]
    pub fn new(e0: T, e1: T) -> (r: Vector2<T>)
        ensures
            r.e0 == e0,
            r.e1 == e1,
    {
        Vector2 { e0, e1 }
    }

    /// Component at `index`. The vector has fixed length 2, so only the
    /// indices 0 and 1 are meaningful; the caller must validate any other
    /// index before calling.
    #[inline(always)]
    pub fn get(self, index: usize) -> (r: T)
        requires
            index < 2,
        ensures
            index == 0 ==> r == self.e0,
            index == 1 ==> r == self.e1,
    {
        if index == 0 {
            self.e0
        } else {
            self.e1
        }
    }
}

/// What addition of two vectors means: the specification side of the
/// `core::ops::Add` impl below, defined elementwise over `T`'s own
/// addition spec.
impl<T: Copy + core::ops::Add<Output = T>> vstd::std_specs::ops::AddSpecImpl<Vector2<T>> for Vector2<T> {
    open spec fn obeys_add_spec() -> bool {
        T::obeys_add_spec()
    }

    open spec fn add_req(self, rhs: Vector2<T>) -> bool {
        self.e0.add_req(rhs.e0) && self.e1.add_req(rhs.e1)
    }

    open spec fn add_spec(self, rhs: Vector2<T>) -> Vector2<T> {
        Vector2 { e0: self.e0.add_spec(rhs.e0), e1: self.e1.add_spec(rhs.e1) }
    }
}

/// Elementwise addition: `a + b` is the vector of component sums.
impl<T: Copy + core::ops::Add<Output = T>> core::ops::Add<Vector2<T>> for Vector2<T> {
    type Output = Vector2<T>;

    #[inline(always)]
    fn add(self, other: Vector2<T>) -> Vector2<T> {
        Vector2 { e0: self.e0 + other.e0, e1: self.e1 + other.e1 }
    }
}

/// What subtraction of two vectors means: elementwise over `T`'s own
/// subtraction spec.
impl<T: Copy + core::ops::Sub<Output = T>> vstd::std_specs::ops::SubSpecImpl<Vector2<T>> for Vector2<T> {
    open spec fn obeys_sub_spec() -> bool {
        T::obeys_sub_spec()
    }

    open spec fn sub_req(self, rhs: Vector2<T>) -> bool {
        self.e0.sub_req(rhs.e0) && self.e1.sub_req(rhs.e1)
    }

    open spec fn sub_spec(self, rhs: Vector2<T>) -> Vector2<T> {
        Vector2 { e0: self.e0.sub_spec(rhs.e0), e1: self.e1.sub_spec(rhs.e1) }
    }
}

/// Elementwise subtraction: `a - b` is the vector of component differences.
impl<T: Copy + core::ops::Sub<Output = T>> core::ops::Sub<Vector2<T>> for Vector2<T> {
    type Output = Vector2<T>;

    #[inline(always)]
    fn sub(self, other: Vector2<T>) -> Vector2<T> {
        Vector2 { e0: self.e0 - other.e0, e1: self.e1 - other.e1 }
    }
}

/// What negation of a vector means: elementwise over `T`'s own negation
/// spec.
impl<T: Copy + core::ops::Neg<Output = T>> vstd::std_specs::ops::NegSpecImpl for Vector2<T> {
    open spec fn obeys_neg_spec() -> bool {
        T::obeys_neg_spec()
    }

    open spec fn neg_req(self) -> bool {
        self.e0.neg_req() && self.e1.neg_req()
    }

    open spec fn neg_spec(self) -> Vector2<T> {
        Vector2 { e0: self.e0.neg_spec(), e1: self.e1.neg_spec() }
    }
}

/// Negation: `-a` is the vector with both components negated.
impl<T: Copy + core::ops::Neg<Output = T>> core::ops::Neg for Vector2<T> {
    type Output = Vector2<T>;

    #[inline(always)]
    fn neg(self) -> Vector2<T> {
        Vector2 { e0: self.e0.neg(), e1: self.e1.neg() }
    }
}

/// What the dot product of two vectors means: the sum of the elementwise
/// products, a scalar. Computing it multiplies and then adds, so it is
/// defined (and its result known) only for scalar types whose
/// multiplication obeys its spec.
impl<T: Copy + core::ops::Mul<Output = T> + core::ops::Add<Output = T>> vstd::std_specs::ops::MulSpecImpl<
    Vector2<T>,
> for Vector2<T> {
    open spec fn obeys_mul_spec() -> bool {
        T::obeys_mul_spec() && T::obeys_add_spec()
    }

    open spec fn mul_req(self, rhs: Vector2<T>) -> bool {
        T::obeys_mul_spec() && self.e0.mul_req(rhs.e0) && self.e1.mul_req(rhs.e1)
            && self.e0.mul_spec(rhs.e0).add_req(self.e1.mul_spec(rhs.e1))
    }

    open spec fn mul_spec(self, rhs: Vector2<T>) -> T {
        self.e0.mul_spec(rhs.e0).add_spec(self.e1.mul_spec(rhs.e1))
    }
}

/// Dot product: `a * b` with a vector operand is the scalar
/// `a.e0 * b.e0 + a.e1 * b.e1`.
impl<T: Copy + core::ops::Mul<Output = T> + core::ops::Add<Output = T>> core::ops::Mul<
    Vector2<T>,
> for Vector2<T> {
    type Output = T;

    #[inline(always)]
    fn mul(self, other: Vector2<T>) -> T {
        self.e0 * other.e0 + self.e1 * other.e1
    }
}

/// What scaling a vector by a scalar means: elementwise over `T`'s own
/// multiplication spec.
impl<T: Copy + core::ops::Mul<Output = T>> vstd::std_specs::ops::MulSpecImpl<T> for Vector2<T> {
    open spec fn obeys_mul_spec() -> bool {
        T::obeys_mul_spec()
    }

    open spec fn mul_req(self, scalar: T) -> bool {
        self.e0.mul_req(scalar) && self.e1.mul_req(scalar)
    }

    open spec fn mul_spec(self, scalar: T) -> Vector2<T> {
        Vector2 { e0: self.e0.mul_spec(scalar), e1: self.e1.mul_spec(scalar) }
    }
}

/// Scalar multiply: `a * s` with a scalar operand scales each component
/// by `s`.
impl<T: Copy + core::ops::Mul<Output = T>> core::ops::Mul<T> for Vector2<T> {
    type Output = Vector2<T>;

    #[inline(always)]
    fn mul(self, scalar: T) -> Vector2<T> {
        Vector2 { e0: self.e0 * scalar, e1: self.e1 * scalar }
    }
}

/// Addition is elementwise: each component of `a + b` is the sum of the
/// corresponding components of `a` and `b`, for every scalar type.
pub proof fn lemma_add_componentwise<T: Copy + core::ops::Add<Output = T>>(
    a: Vector2<T>,
    b: Vector2<T>,
)
    ensures
        a.add_spec(b).e0 == a.e0.add_spec(b.e0),
        a.add_spec(b).e1 == a.e1.add_spec(b.e1),
{
}

/// Subtraction is elementwise: each component of `a - b` is the difference
/// of the corresponding components of `a` and `b`, for every scalar type.
pub proof fn lemma_sub_componentwise<T: Copy + core::ops::Sub<Output = T>>(
    a: Vector2<T>,
    b: Vector2<T>,
)
    ensures
        a.sub_spec(b).e0 == a.e0.sub_spec(b.e0),
        a.sub_spec(b).e1 == a.e1.sub_spec(b.e1),
{
}

/// Scalar multiplication distributes over the components: each component
/// of `a * s` is the corresponding component of `a` scaled by `s`, for
/// every scalar type.
pub proof fn lemma_scale_componentwise<T: Copy + core::ops::Mul<Output = T>>(
    a: Vector2<T>,
    s: T,
)
    ensures
        a.mul_spec(s).e0 == a.e0.mul_spec(s),
        a.mul_spec(s).e1 == a.e1.mul_spec(s),
{
}

/// Subtracting and then adding back the same vector is the identity, as
/// `i64` arithmetic is exact: whenever `a - b` stays in range, `(a - b) + b`
/// stays in range too and equals `a`.
pub proof fn lemma_sub_then_add_cancels(a: Vector2<i64>, b: Vector2<i64>)
    requires
        a.sub_req(b),
    ensures
        a.sub_spec(b).add_req(b),
        a.sub_spec(b).add_spec(b) == a,
{
}

/// Negation is an involution on `i64` vectors: whenever `-a` stays in
/// range, `-a` can be negated again and `-(-a)` equals `a`.
pub proof fn lemma_neg_involution(a: Vector2<i64>)
    requires
        a.neg_req(),
    ensures
        a.neg_spec().neg_req(),
        a.neg_spec().neg_spec() == a,
{
}

/// The dot product is commutative: `a * b` and `b * a` are the same
/// scalar, for all `i64` vectors.
pub proof fn lemma_dot_commutative(a: Vector2<i64>, b: Vector2<i64>)
    ensures
        a.mul_spec(b) == b.mul_spec(a),
{
}

} // verus!
