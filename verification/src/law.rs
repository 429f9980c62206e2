//! The pairwise law of gravitation.

use vstd::prelude::*;
use crate::arithmetic::Arithmetic;
use crate::arithmetic::deterministic;
use crate::arithmetic::is_decoded;
use crate::arithmetic::is_divided;
use crate::arithmetic::is_magnitude;
use crate::arithmetic::is_product;
use crate::arithmetic::is_scaled;

verus! {

/// The gravitational constant `G = 6.67430e-11` m³ kg⁻¹ s⁻², as the IEEE 754
/// binary64 encoding that [`Arithmetic::scalar_from_bits`] decodes.
pub const GRAVITATIONAL_CONSTANT_BITS: u64 = 0x3DD2_589E_FFED_8ACC;

/// `cube` is `(distance · distance) · distance`.
pub open spec fn cubed<A: Arithmetic>(distance: A::Scalar, cube: A::Scalar) -> bool {
    exists|square: A::Scalar|
        is_product::<A>(distance, distance, square) && is_product::<A>(square, distance, cube)
}

/// `strength` is `G · mass`.
pub open spec fn source_strength<A: Arithmetic>(mass: A::Scalar, strength: A::Scalar) -> bool {
    exists|g: A::Scalar|
        is_decoded::<A>(GRAVITATIONAL_CONSTANT_BITS, g) && is_product::<A>(g, mass, strength)
}

/// `acceleration` is `displacement · (G · mass) / |displacement|³`: what a source
/// of the given mass imparts on a body from which it lies at `displacement`.
pub open spec fn pair_acceleration<A: Arithmetic>(
    displacement: A::Vector,
    mass: A::Scalar,
    acceleration: A::Vector,
) -> bool {
    exists|strength: A::Scalar, pull: A::Vector, distance: A::Scalar, cube: A::Scalar|
        {
            &&& source_strength::<A>(mass, strength)
            &&& is_scaled::<A>(displacement, strength, pull)
            &&& is_magnitude::<A>(displacement, distance)
            &&& cubed::<A>(distance, cube)
            &&& is_divided::<A>(pull, cube, acceleration)
        }
}

/// The acceleration that a source of mass `m2` imparts on a body, where
/// `displacement` leads from the body to the source.
///
/// Nothing is made of a zero displacement here: the quotient is then whatever
/// the arithmetic gives for a division by zero.
pub fn compute_gravitational_acceleration_one_on_one<A: Arithmetic>(
    displacement: A::Vector,
    m2: A::Scalar,
) -> (acceleration: A::Vector)
    ensures
        pair_acceleration::<A>(displacement, m2, acceleration),
{
    let distance = A::magnitude(displacement);
    let g = A::scalar_from_bits(GRAVITATIONAL_CONSTANT_BITS);
    let strength = A::product(g, m2);
    let pull = A::scaled(displacement, strength);
    let square = A::product(distance, distance);
    let cube = A::product(square, distance);
    let acceleration = A::divided(pull, cube);
    proof {
        assert(source_strength::<A>(m2, strength));
        assert(cubed::<A>(distance, cube));
    }
    acceleration
}

/// With a deterministic arithmetic the law has one value for each displacement
/// and mass.
pub proof fn pair_acceleration_is_single_valued<A: Arithmetic>(
    displacement: A::Vector,
    mass: A::Scalar,
    first: A::Vector,
    second: A::Vector,
)
    requires
        deterministic::<A>(),
        pair_acceleration::<A>(displacement, mass, first),
        pair_acceleration::<A>(displacement, mass, second),
    ensures
        first == second,
{
}

} // verus!
