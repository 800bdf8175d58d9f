//! The vector value type and its component-wise operator algebra.
use vstd::prelude::*;
use vstd::std_specs::convert::FromSpecImpl;
use vstd::std_specs::ops::{AddSpec, DivSpec, MulSpec, NegSpec, SubSpec};

verus! {

/// A vector of two components of the scalar type `T`.
#[derive(Clone, Copy, Debug, PartialEq, Eq, Hash, Default)]
pub struct Vector2<T> {
    pub x: T,
    pub y: T,
}

/// A vector of two 32-bit signed integers.
pub type IVec2 = Vector2<i32>;

impl<T> Vector2<T> {
    /// Builds a vector from its two components.
    pub fn new(x: T, y: T) -> (r: Self)
        ensures
            r.x == x,
            r.y == y,
    {
        Vector2 { x, y }
    }

    /// Builds a vector whose two components are both `value`.
    pub fn splat(value: T) -> (r: Self)
        where
            T: Copy,
        ensures
            r.x == value,
            r.y == value,
    {
        Vector2 { x: value, y: value }
    }
}

impl<T: Copy> Vector2<T> {
    /// Adds `rhs` to this vector in place, component by component.
    pub fn add_assign<U>(&mut self, rhs: Vector2<U>)
        where
            T: core::ops::Add<U, Output = T>,
        requires
            old(self).add_req(rhs),
        ensures
            T::obeys_add_spec() ==> *final(self) == old(self).add_spec(rhs),
    {
        self.x = self.x.add(rhs.x);
        self.y = self.y.add(rhs.y);
    }

    /// Subtracts `rhs` from this vector in place, component by component.
    pub fn sub_assign<U>(&mut self, rhs: Vector2<U>)
        where
            T: core::ops::Sub<U, Output = T>,
        requires
            old(self).sub_req(rhs),
        ensures
            T::obeys_sub_spec() ==> *final(self) == old(self).sub_spec(rhs),
    {
        self.x = self.x.sub(rhs.x);
        self.y = self.y.sub(rhs.y);
    }

    /// Multiplies both components of this vector by the scalar `rhs` in place.
    pub fn mul_assign<U: Copy>(&mut self, rhs: U)
        where
            T: core::ops::Mul<U, Output = T>,
        requires
            old(self).mul_req(rhs),
        ensures
            T::obeys_mul_spec() ==> *final(self) == old(self).mul_spec(rhs),
    {
        self.x = self.x.mul(rhs);
        self.y = self.y.mul(rhs);
    }

    /// Divides both components of this vector by the scalar `rhs` in place.
    pub fn div_assign<U: Copy>(&mut self, rhs: U)
        where
            T: core::ops::Div<U, Output = T>,
        requires
            old(self).div_req(rhs),
        ensures
            T::obeys_div_spec() ==> *final(self) == old(self).div_spec(rhs),
    {
        self.x = self.x.div(rhs);
        self.y = self.y.div(rhs);
    }
}

/// The dot product `a.x * b.x + a.y * b.y` over the scalars' own
/// multiplication and addition.
pub open spec fn dot_spec<T, U, R>(a: Vector2<T>, b: Vector2<U>) -> R
    where
        T: core::ops::Mul<U, Output = R>,
        R: core::ops::Add<Output = R>,
{
    a.x.mul_spec(b.x).add_spec(a.y.mul_spec(b.y))
}

/// Whether the scalar operations of the dot product of `a` and `b` are all
/// defined.
pub open spec fn dot_req<T, U, R>(a: Vector2<T>, b: Vector2<U>) -> bool
    where
        T: core::ops::Mul<U, Output = R>,
        R: core::ops::Add<Output = R>,
{
    &&& a.x.mul_req(b.x)
    &&& a.y.mul_req(b.y)
    &&& a.x.mul_spec(b.x).add_req(a.y.mul_spec(b.y))
}

impl<T> Vector2<T> {
    /// The dot product of this vector and `other`. The scalar
    /// multiplication must follow its specification, so that the sum of
    /// the two products is known to be defined.
    pub fn dot<U, R>(self, other: Vector2<U>) -> (r: R)
        where
            T: core::ops::Mul<U, Output = R>,
            R: core::ops::Add<Output = R>,
        requires
            T::obeys_mul_spec(),
            dot_req(self, other),
        ensures
            R::obeys_add_spec() ==> r == dot_spec(self, other),
    {
        let px = self.x.mul(other.x);
        let py = self.y.mul(other.y);
        px.add(py)
    }

    /// The squared length of this vector, its dot product with itself.
    pub fn magnitude_squared<R>(self) -> (r: R)
        where
            T: Copy + core::ops::Mul<T, Output = R>,
            R: core::ops::Add<Output = R>,
        requires
            T::obeys_mul_spec(),
            dot_req(self, self),
        ensures
            R::obeys_add_spec() ==> r == dot_spec(self, self),
    {
        self.dot(self)
    }
}

impl Vector2<i32> {
    /// The zero vector `(0, 0)`.
    pub fn zero() -> (r: Self)
        ensures
            r.x == 0 && r.y == 0,
    {
        Vector2 { x: 0, y: 0 }
    }

    /// The unit vector along the first axis, `(1, 0)`.
    pub fn unit_x() -> (r: Self)
        ensures
            r.x == 1 && r.y == 0,
    {
        Vector2 { x: 1, y: 0 }
    }

    /// The unit vector along the second axis, `(0, 1)`.
    pub fn unit_y() -> (r: Self)
        ensures
            r.x == 0 && r.y == 1,
    {
        Vector2 { x: 0, y: 1 }
    }
}

/// Component-wise addition of two vectors.
impl<T: core::ops::Add<U>, U> core::ops::Add<Vector2<U>> for Vector2<T> {
    type Output = Vector2<T::Output>;

    fn add(self, rhs: Vector2<U>) -> (r: Vector2<T::Output>)
    {
        Vector2 { x: self.x.add(rhs.x), y: self.y.add(rhs.y) }
    }
}

impl<T: core::ops::Add<U>, U> vstd::std_specs::ops::AddSpecImpl<Vector2<U>> for Vector2<T> {
    open spec fn obeys_add_spec() -> bool {
        T::obeys_add_spec()
    }

    open spec fn add_req(self, rhs: Vector2<U>) -> bool {
        self.x.add_req(rhs.x) && self.y.add_req(rhs.y)
    }

    open spec fn add_spec(self, rhs: Vector2<U>) -> Vector2<T::Output> {
        Vector2 { x: self.x.add_spec(rhs.x), y: self.y.add_spec(rhs.y) }
    }
}

/// Component-wise subtraction of two vectors.
impl<T: core::ops::Sub<U>, U> core::ops::Sub<Vector2<U>> for Vector2<T> {
    type Output = Vector2<T::Output>;

    fn sub(self, rhs: Vector2<U>) -> (r: Vector2<T::Output>)
    {
        Vector2 { x: self.x.sub(rhs.x), y: self.y.sub(rhs.y) }
    }
}

impl<T: core::ops::Sub<U>, U> vstd::std_specs::ops::SubSpecImpl<Vector2<U>> for Vector2<T> {
    open spec fn obeys_sub_spec() -> bool {
        T::obeys_sub_spec()
    }

    open spec fn sub_req(self, rhs: Vector2<U>) -> bool {
        self.x.sub_req(rhs.x) && self.y.sub_req(rhs.y)
    }

    open spec fn sub_spec(self, rhs: Vector2<U>) -> Vector2<T::Output> {
        Vector2 { x: self.x.sub_spec(rhs.x), y: self.y.sub_spec(rhs.y) }
    }
}

/// Multiplication by a scalar, which is applied to both components.
impl<T: core::ops::Mul<U>, U: Copy> core::ops::Mul<U> for Vector2<T> {
    type Output = Vector2<T::Output>;

    fn mul(self, rhs: U) -> (r: Vector2<T::Output>)
    {
        Vector2 { x: self.x.mul(rhs), y: self.y.mul(rhs) }
    }
}

impl<T: core::ops::Mul<U>, U: Copy> vstd::std_specs::ops::MulSpecImpl<U> for Vector2<T> {
    open spec fn obeys_mul_spec() -> bool {
        T::obeys_mul_spec()
    }

    open spec fn mul_req(self, rhs: U) -> bool {
        self.x.mul_req(rhs) && self.y.mul_req(rhs)
    }

    open spec fn mul_spec(self, rhs: U) -> Vector2<T::Output> {
        Vector2 { x: self.x.mul_spec(rhs), y: self.y.mul_spec(rhs) }
    }
}

/// Division by a scalar, which is applied to both components. A zero
/// divisor is left to the scalar's own division.
impl<T: core::ops::Div<U>, U: Copy> core::ops::Div<U> for Vector2<T> {
    type Output = Vector2<T::Output>;

    fn div(self, rhs: U) -> (r: Vector2<T::Output>)
    {
        Vector2 { x: self.x.div(rhs), y: self.y.div(rhs) }
    }
}

impl<T: core::ops::Div<U>, U: Copy> vstd::std_specs::ops::DivSpecImpl<U> for Vector2<T> {
    open spec fn obeys_div_spec() -> bool {
        T::obeys_div_spec()
    }

    open spec fn div_req(self, rhs: U) -> bool {
        self.x.div_req(rhs) && self.y.div_req(rhs)
    }

    open spec fn div_spec(self, rhs: U) -> Vector2<T::Output> {
        Vector2 { x: self.x.div_spec(rhs), y: self.y.div_spec(rhs) }
    }
}

/// Component-wise negation.
impl<T: core::ops::Neg> core::ops::Neg for Vector2<T> {
    type Output = Vector2<T::Output>;

    fn neg(self) -> (r: Vector2<T::Output>)
    {
        Vector2 { x: self.x.neg(), y: self.y.neg() }
    }
}

impl<T: core::ops::Neg> vstd::std_specs::ops::NegSpecImpl for Vector2<T> {
    open spec fn obeys_neg_spec() -> bool {
        T::obeys_neg_spec()
    }

    open spec fn neg_req(self) -> bool {
        self.x.neg_req() && self.y.neg_req()
    }

    open spec fn neg_spec(self) -> Vector2<T::Output> {
        Vector2 { x: self.x.neg_spec(), y: self.y.neg_spec() }
    }
}

impl<T: Copy> From<[T; 2]> for Vector2<T> {
    fn from(a: [T; 2]) -> (r: Vector2<T>) {
        Vector2 { x: a[0], y: a[1] }
    }
}

impl<T: Copy> FromSpecImpl<[T; 2]> for Vector2<T> {
    open spec fn obeys_from_spec() -> bool {
        true
    }

    open spec fn from_spec(a: [T; 2]) -> Vector2<T> {
        Vector2 { x: a@[0], y: a@[1] }
    }
}

impl<T> From<Vector2<T>> for [T; 2] {
    fn from(v: Vector2<T>) -> (r: [T; 2]) {
        [v.x, v.y]
    }
}

impl<T> FromSpecImpl<Vector2<T>> for [T; 2] {
    open spec fn obeys_from_spec() -> bool {
        true
    }

    open spec fn from_spec(v: Vector2<T>) -> [T; 2] {
        [v.x, v.y]
    }
}

impl<T> From<(T, T)> for Vector2<T> {
    fn from(t: (T, T)) -> (r: Vector2<T>) {
        Vector2 { x: t.0, y: t.1 }
    }
}

impl<T> FromSpecImpl<(T, T)> for Vector2<T> {
    open spec fn obeys_from_spec() -> bool {
        true
    }

    open spec fn from_spec(t: (T, T)) -> Vector2<T> {
        Vector2 { x: t.0, y: t.1 }
    }
}

impl<T> From<Vector2<T>> for (T, T) {
    fn from(v: Vector2<T>) -> (r: (T, T)) {
        (v.x, v.y)
    }
}

impl<T> FromSpecImpl<Vector2<T>> for (T, T) {
    open spec fn obeys_from_spec() -> bool {
        true
    }

    open spec fn from_spec(v: Vector2<T>) -> (T, T) {
        (v.x, v.y)
    }
}

} // verus!
