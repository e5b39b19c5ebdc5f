//! The numeric capability that the nodes compute with.

use vstd::prelude::*;

verus! {

/// The default sample rate in Hz.
pub const DEFAULT_SR: i64 = 44100;

/// A sample type: a real scalar with the four arithmetic operations, exact
/// comparison, and lossless conversion from small integers and to and from
/// double precision, which is carried as its 64-bit pattern.
///
/// Each operation is a function of its operands alone; the spec functions
/// name what an implementation computes.
pub trait Float: Copy {
    /// The value that stands for the integer `n`.
    spec fn from_int(n: i64) -> Self;

    /// The value nearest to the double-precision number with bit pattern `b`.
    spec fn from_double(b: u64) -> Self;

    /// The bit pattern of this value in double precision.
    spec fn double(self) -> u64;

    spec fn sum(self, rhs: Self) -> Self;

    spec fn difference(self, rhs: Self) -> Self;

    spec fn product(self, rhs: Self) -> Self;

    spec fn quotient(self, rhs: Self) -> Self;

    spec fn negation(self) -> Self;

    /// Whether this value is less than `rhs`.
    spec fn less(self, rhs: Self) -> bool;

    /// Whether this value and `rhs` compare unequal.
    spec fn differs(self, rhs: Self) -> bool;

    fn new(n: i64) -> (r: Self)
        ensures
            r == Self::from_int(n),
    ;

    fn from_bits(b: u64) -> (r: Self)
        ensures
            r == Self::from_double(b),
    ;

    fn to_bits(self) -> (b: u64)
        ensures
            b == self.double(),
    ;

    fn add(self, rhs: Self) -> (r: Self)
        ensures
            r == self.sum(rhs),
    ;

    fn sub(self, rhs: Self) -> (r: Self)
        ensures
            r == self.difference(rhs),
    ;

    fn mul(self, rhs: Self) -> (r: Self)
        ensures
            r == self.product(rhs),
    ;

    fn div(self, rhs: Self) -> (r: Self)
        ensures
            r == self.quotient(rhs),
    ;

    fn neg(self) -> (r: Self)
        ensures
            r == self.negation(),
    ;

    fn lt(self, rhs: Self) -> (b: bool)
        ensures
            b == self.less(rhs),
    ;

    fn ne(self, rhs: Self) -> (b: bool)
        ensures
            b == self.differs(rhs),
    ;
}

/// A computation type: a sample type with the transcendental functions.
pub trait Real: Float {
    spec fn square_root(self) -> Self;

    spec fn exponential(self) -> Self;

    spec fn sine(self) -> Self;

    spec fn cosine(self) -> Self;

    spec fn tangent(self) -> Self;

    fn sqrt(self) -> (r: Self)
        ensures
            r == self.square_root(),
    ;

    fn exp(self) -> (r: Self)
        ensures
            r == self.exponential(),
    ;

    fn sin(self) -> (r: Self)
        ensures
            r == self.sine(),
    ;

    fn cos(self) -> (r: Self)
        ensures
            r == self.cosine(),
    ;

    fn tan(self) -> (r: Self)
        ensures
            r == self.tangent(),
    ;
}

/// Converts a value of one sample type to another by way of double
/// precision.
pub open spec fn converted<T: Float, U: Float>(x: T) -> U {
    U::from_double(x.double())
}

/// A sample rate, where one is given, as a value of another type.
pub open spec fn converted_rate<D: Float, F: Float>(sample_rate: Option<D>) -> Option<F> {
    match sample_rate {
        Some(sr) => Some(converted::<D, F>(sr)),
        None => None,
    }
}

/// Converts a value of one sample type to another by way of double
/// precision.
pub fn convert<T: Float, U: Float>(x: T) -> (r: U)
    ensures
        r == converted::<T, U>(x),
{
    U::from_bits(x.to_bits())
}

} // verus!

verus! {

/// Where `x` lies between `a` and `b`: `(x - a) / (b - a)`.
pub open spec fn delerped<F: Float>(a: F, b: F, x: F) -> F {
    x.difference(a).quotient(b.difference(a))
}

/// Where `x` lies between `a` and `b`: 0 at `a`, 1 at `b`.
pub fn delerp<F: Float>(a: F, b: F, x: F) -> (r: F)
    ensures
        r == delerped(a, b, x),
{
    x.sub(a).div(b.sub(a))
}

/// The 9th-order smoothstep `70 x^9 - 315 x^8 + 540 x^7 - 420 x^6 + 126 x^5`,
/// evaluated as `((((70 x - 315) x + 540) x - 420) x + 126) x^2 x^2 x`.
pub open spec fn smoothed9<F: Float>(x: F) -> F {
    let x2 = x.product(x);
    F::from_int(70).product(x).difference(F::from_int(315)).product(x).sum(F::from_int(540)).product(
        x,
    ).difference(F::from_int(420)).product(x).sum(F::from_int(126)).product(x2).product(x2).product(
        x,
    )
}

/// Smooth 9th-degree easing polynomial: rises from 0 at 0 to 1 at 1.
pub fn smooth9<F: Float>(x: F) -> (r: F)
    ensures
        r == smoothed9(x),
{
    let x2 = x.mul(x);
    F::new(70).mul(x).sub(F::new(315)).mul(x).add(F::new(540)).mul(x).sub(F::new(420)).mul(x).add(
        F::new(126),
    ).mul(x2).mul(x2).mul(x)
}

} // verus!
