//! The acceleration of one body under all the others.

use vstd::prelude::*;
use crate::arithmetic::Arithmetic;
use crate::arithmetic::deterministic;
use crate::arithmetic::is_difference;
use crate::arithmetic::is_sum;
use crate::arithmetic::is_zero;
use crate::law::compute_gravitational_acceleration_one_on_one;
use crate::law::pair_acceleration;
use crate::law::pair_acceleration_is_single_valued;

verus! {

/// `after` is `before` plus what body `source` imparts on body `target`: the law
/// applied to the displacement `positions[source] − positions[target]` and to
/// `masses[source]`.
pub open spec fn source_added<A: Arithmetic>(
    masses: Seq<A::Scalar>,
    positions: Seq<A::Vector>,
    target: int,
    source: int,
    before: A::Vector,
    after: A::Vector,
) -> bool {
    exists|displacement: A::Vector, pull: A::Vector|
        {
            &&& is_difference::<A>(positions[source], positions[target], displacement)
            &&& pair_acceleration::<A>(displacement, masses[source], pull)
            &&& is_sum::<A>(before, pull, after)
        }
}

/// `total` is the running sum once the bodies `0 .. upto` have been taken in
/// ascending order, starting from zero and passing over `target` itself.
pub open spec fn accumulated<A: Arithmetic>(
    masses: Seq<A::Scalar>,
    positions: Seq<A::Vector>,
    target: int,
    upto: nat,
    total: A::Vector,
) -> bool
    decreases upto,
{
    if upto == 0 {
        is_zero::<A>(total)
    } else if upto - 1 == target {
        accumulated::<A>(masses, positions, target, (upto - 1) as nat, total)
    } else {
        exists|before: A::Vector|
            {
                &&& accumulated::<A>(masses, positions, target, (upto - 1) as nat, before)
                &&& #[trigger] source_added::<A>(
                    masses,
                    positions,
                    target,
                    upto - 1,
                    before,
                    total,
                )
            }
    }
}

/// `total` is the acceleration of body `target`: the sum over every other body of
/// the ensemble.
pub open spec fn total_acceleration<A: Arithmetic>(
    masses: Seq<A::Scalar>,
    positions: Seq<A::Vector>,
    target: int,
    total: A::Vector,
) -> bool {
    accumulated::<A>(masses, positions, target, masses.len(), total)
}

/// The acceleration of body `index_of_self` under the gravity of all the other
/// bodies. A body is left out by its index, not by its distance: two bodies at
/// one place do act on each other.
pub fn compute_gravitational_acceleration_many_on_one<A: Arithmetic>(
    masses: &[A::Scalar],
    positions: &[A::Vector],
    index_of_self: usize,
) -> (acceleration: A::Vector)
    requires
        masses@.len() == positions@.len(),
        index_of_self < positions@.len(),
    ensures
        total_acceleration::<A>(masses@, positions@, index_of_self as int, acceleration),
{
    let mut acceleration = A::zero();
    let n: usize = masses.len();
    let mut i: usize = 0;
    while i < n
        invariant
            n == masses@.len(),
            n == positions@.len(),
            index_of_self < n,
            i <= n,
            accumulated::<A>(masses@, positions@, index_of_self as int, i as nat, acceleration),
        decreases n - i,
    {
        if i != index_of_self {
            let displacement = A::difference(positions[i], positions[index_of_self]);
            let grav_acceleration = compute_gravitational_acceleration_one_on_one::<A>(
                displacement,
                masses[i],
            );
            let before = acceleration;
            acceleration = A::sum(before, grav_acceleration);
            proof {
                assert(source_added::<A>(
                    masses@,
                    positions@,
                    index_of_self as int,
                    i as int,
                    before,
                    acceleration,
                ));
            }
        }
        i += 1;
    }
    acceleration
}

/// With a deterministic arithmetic the running sum has one value at each stage.
pub proof fn accumulated_is_single_valued<A: Arithmetic>(
    masses: Seq<A::Scalar>,
    positions: Seq<A::Vector>,
    target: int,
    upto: nat,
    first: A::Vector,
    second: A::Vector,
)
    requires
        deterministic::<A>(),
        accumulated::<A>(masses, positions, target, upto, first),
        accumulated::<A>(masses, positions, target, upto, second),
    ensures
        first == second,
    decreases upto,
{
    if upto == 0 {
    } else if upto - 1 == target {
        accumulated_is_single_valued::<A>(
            masses,
            positions,
            target,
            (upto - 1) as nat,
            first,
            second,
        );
    } else {
        let before_first = choose|before: A::Vector|
            {
                &&& accumulated::<A>(masses, positions, target, (upto - 1) as nat, before)
                &&& #[trigger] source_added::<A>(
                    masses,
                    positions,
                    target,
                    upto - 1,
                    before,
                    first,
                )
            };
        let before_second = choose|before: A::Vector|
            {
                &&& accumulated::<A>(masses, positions, target, (upto - 1) as nat, before)
                &&& #[trigger] source_added::<A>(
                    masses,
                    positions,
                    target,
                    upto - 1,
                    before,
                    second,
                )
            };
        accumulated_is_single_valued::<A>(
            masses,
            positions,
            target,
            (upto - 1) as nat,
            before_first,
            before_second,
        );
        source_added_is_single_valued::<A>(
            masses,
            positions,
            target,
            upto - 1,
            before_first,
            first,
            second,
        );
    }
}

/// With a deterministic arithmetic, adding one source to a sum has one result.
pub proof fn source_added_is_single_valued<A: Arithmetic>(
    masses: Seq<A::Scalar>,
    positions: Seq<A::Vector>,
    target: int,
    source: int,
    before: A::Vector,
    first: A::Vector,
    second: A::Vector,
)
    requires
        deterministic::<A>(),
        source_added::<A>(masses, positions, target, source, before, first),
        source_added::<A>(masses, positions, target, source, before, second),
    ensures
        first == second,
{
    let (displacement_first, pull_first) = choose|displacement: A::Vector, pull: A::Vector|
        {
            &&& is_difference::<A>(positions[source], positions[target], displacement)
            &&& pair_acceleration::<A>(displacement, masses[source], pull)
            &&& is_sum::<A>(before, pull, first)
        };
    let (displacement_second, pull_second) = choose|displacement: A::Vector, pull: A::Vector|
        {
            &&& is_difference::<A>(positions[source], positions[target], displacement)
            &&& pair_acceleration::<A>(displacement, masses[source], pull)
            &&& is_sum::<A>(before, pull, second)
        };
    pair_acceleration_is_single_valued::<A>(
        displacement_first,
        masses[source],
        pull_first,
        pull_second,
    );
}

/// With a deterministic arithmetic a body has one acceleration.
pub proof fn total_acceleration_is_single_valued<A: Arithmetic>(
    masses: Seq<A::Scalar>,
    positions: Seq<A::Vector>,
    target: int,
    first: A::Vector,
    second: A::Vector,
)
    requires
        deterministic::<A>(),
        total_acceleration::<A>(masses, positions, target, first),
        total_acceleration::<A>(masses, positions, target, second),
    ensures
        first == second,
{
    accumulated_is_single_valued::<A>(masses, positions, target, masses.len(), first, second);
}

} // verus!
