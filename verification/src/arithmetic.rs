//! The number system the kernel computes in.

use vstd::prelude::*;

verus! {

/// A scalar type, a vector type over it, and the operations the kernel combines.
///
/// The host implements this for its own numbers. The trait promises nothing
/// about any operation: the kernel's contracts speak of whatever an operation
/// returned, through the relations below, and hold for every implementation.
/// Values of both types are handed to worker threads.
pub trait Arithmetic {
    /// A mass, a duration, a distance.
    type Scalar: Copy + Send + Sync;

    /// A position, a velocity, an acceleration.
    type Vector: Copy + Send + Sync;

    /// The scalar whose IEEE 754 binary64 encoding is `bits`.
    fn scalar_from_bits(bits: u64) -> Self::Scalar;

    /// `a · b`.
    fn product(a: Self::Scalar, b: Self::Scalar) -> Self::Scalar;

    /// The vector with no length.
    fn zero() -> Self::Vector;

    /// `|v|`, the Euclidean length of `v`.
    fn magnitude(v: Self::Vector) -> Self::Scalar;

    /// `v · s`.
    fn scaled(v: Self::Vector, s: Self::Scalar) -> Self::Vector;

    /// `v / s`.
    fn divided(v: Self::Vector, s: Self::Scalar) -> Self::Vector;

    /// `a + b`.
    fn sum(a: Self::Vector, b: Self::Vector) -> Self::Vector;

    /// `a − b`.
    fn difference(a: Self::Vector, b: Self::Vector) -> Self::Vector;

    /// Whether every component of `v` is a finite number.
    fn is_finite(v: Self::Vector) -> bool;
}

/// A call `A::scalar_from_bits(bits)` may return `scalar`.
#[verifier::inline]
pub open spec fn is_decoded<A: Arithmetic>(bits: u64, scalar: A::Scalar) -> bool {
    call_ensures(A::scalar_from_bits, (bits,), scalar)
}

/// A call `A::product(a, b)` may return `result`.
#[verifier::inline]
pub open spec fn is_product<A: Arithmetic>(a: A::Scalar, b: A::Scalar, result: A::Scalar) -> bool {
    call_ensures(A::product, (a, b), result)
}

/// A call `A::zero()` may return `result`.
#[verifier::inline]
pub open spec fn is_zero<A: Arithmetic>(result: A::Vector) -> bool {
    call_ensures(A::zero, (), result)
}

/// A call `A::magnitude(v)` may return `result`.
#[verifier::inline]
pub open spec fn is_magnitude<A: Arithmetic>(v: A::Vector, result: A::Scalar) -> bool {
    call_ensures(A::magnitude, (v,), result)
}

/// A call `A::scaled(v, s)` may return `result`.
#[verifier::inline]
pub open spec fn is_scaled<A: Arithmetic>(v: A::Vector, s: A::Scalar, result: A::Vector) -> bool {
    call_ensures(A::scaled, (v, s), result)
}

/// A call `A::divided(v, s)` may return `result`.
#[verifier::inline]
pub open spec fn is_divided<A: Arithmetic>(v: A::Vector, s: A::Scalar, result: A::Vector) -> bool {
    call_ensures(A::divided, (v, s), result)
}

/// A call `A::sum(a, b)` may return `result`.
#[verifier::inline]
pub open spec fn is_sum<A: Arithmetic>(a: A::Vector, b: A::Vector, result: A::Vector) -> bool {
    call_ensures(A::sum, (a, b), result)
}

/// A call `A::difference(a, b)` may return `result`.
#[verifier::inline]
pub open spec fn is_difference<A: Arithmetic>(
    a: A::Vector,
    b: A::Vector,
    result: A::Vector,
) -> bool {
    call_ensures(A::difference, (a, b), result)
}

/// A call `A::is_finite(v)` may return `finite`.
#[verifier::inline]
pub open spec fn is_finiteness<A: Arithmetic>(v: A::Vector, finite: bool) -> bool {
    call_ensures(A::is_finite, (v,), finite)
}

/// Every operation of `A` has one result for given arguments.
pub open spec fn deterministic<A: Arithmetic>() -> bool {
    &&& forall|bits: u64, r1: A::Scalar, r2: A::Scalar|
        is_decoded::<A>(bits, r1) && is_decoded::<A>(bits, r2) ==> r1 == r2
    &&& forall|a: A::Scalar, b: A::Scalar, r1: A::Scalar, r2: A::Scalar|
        is_product::<A>(a, b, r1) && is_product::<A>(a, b, r2) ==> r1 == r2
    &&& forall|r1: A::Vector, r2: A::Vector| is_zero::<A>(r1) && is_zero::<A>(r2) ==> r1 == r2
    &&& forall|v: A::Vector, r1: A::Scalar, r2: A::Scalar|
        is_magnitude::<A>(v, r1) && is_magnitude::<A>(v, r2) ==> r1 == r2
    &&& forall|v: A::Vector, s: A::Scalar, r1: A::Vector, r2: A::Vector|
        is_scaled::<A>(v, s, r1) && is_scaled::<A>(v, s, r2) ==> r1 == r2
    &&& forall|v: A::Vector, s: A::Scalar, r1: A::Vector, r2: A::Vector|
        is_divided::<A>(v, s, r1) && is_divided::<A>(v, s, r2) ==> r1 == r2
    &&& forall|a: A::Vector, b: A::Vector, r1: A::Vector, r2: A::Vector|
        is_sum::<A>(a, b, r1) && is_sum::<A>(a, b, r2) ==> r1 == r2
    &&& forall|a: A::Vector, b: A::Vector, r1: A::Vector, r2: A::Vector|
        is_difference::<A>(a, b, r1) && is_difference::<A>(a, b, r2) ==> r1 == r2
    &&& forall|v: A::Vector, r1: bool, r2: bool|
        is_finiteness::<A>(v, r1) && is_finiteness::<A>(v, r2) ==> r1 == r2
}

} // verus!
