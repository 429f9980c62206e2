//! The accelerations of all bodies at once.

use vstd::prelude::*;
use rayon::iter::IndexedParallelIterator;
use rayon::iter::IntoParallelRefMutIterator;
use rayon::iter::ParallelIterator;
use crate::aggregate::compute_gravitational_acceleration_many_on_one;
use crate::aggregate::total_acceleration;
use crate::aggregate::total_acceleration_is_single_valued;
use crate::arithmetic::Arithmetic;
use crate::arithmetic::deterministic;

verus! {

/// `accelerations` holds, slot by slot, the acceleration of each body of the
/// ensemble.
pub open spec fn batch_accelerations<A: Arithmetic>(
    masses: Seq<A::Scalar>,
    positions: Seq<A::Vector>,
    accelerations: Seq<A::Vector>,
) -> bool {
    &&& accelerations.len() == positions.len()
    &&& forall|i: int|
        0 <= i < accelerations.len() ==> total_acceleration::<A>(
            masses,
            positions,
            i,
            #[trigger] accelerations[i],
        )
}

/// Puts the acceleration of body `index` into `slot`.
fn store_acceleration<A: Arithmetic>(
    slot: &mut A::Vector,
    masses: &[A::Scalar],
    positions: &[A::Vector],
    index: usize,
)
    requires
        masses@.len() == positions@.len(),
        index < positions@.len(),
    ensures
        total_acceleration::<A>(masses@, positions@, index as int, *final(slot)),
{
    *slot = compute_gravitational_acceleration_many_on_one::<A>(masses, positions, index);
}

/// Runs [`store_acceleration`] on every slot of `accelerations`, on rayon's
/// worker threads.
///
/// Not proved: that rayon's `par_iter_mut().enumerate().for_each(..)` calls the
/// closure once for each slot of the slice, with the slot's own index, and
/// returns when all calls have returned. The slice then has its old length, and
/// each slot holds what `store_acceleration` left there for its index.
#[verifier::external_body]
fn store_accelerations_in_parallel<A: Arithmetic>(
    masses: &[A::Scalar],
    positions: &[A::Vector],
    accelerations: &mut [A::Vector],
)
    requires
        masses@.len() == positions@.len(),
        old(accelerations)@.len() <= positions@.len(),
    ensures
        final(accelerations)@.len() == old(accelerations)@.len(),
        forall|i: int|
            0 <= i < old(accelerations)@.len() ==> total_acceleration::<A>(
                masses@,
                positions@,
                i,
                #[trigger] final(accelerations)@[i],
            ),
{
    accelerations.par_iter_mut().enumerate().for_each(
        |(index, slot)| store_acceleration::<A>(slot, masses, positions, index),
    );
}

/// Overwrites every slot of `accelerations` with the acceleration of the body of
/// that index. The slots are filled side by side on worker threads; each one is
/// computed from `masses` and `positions` alone.
pub fn compute_gravitational_acceleration_many_on_many<A: Arithmetic>(
    masses: &[A::Scalar],
    positions: &[A::Vector],
    accelerations: &mut [A::Vector],
)
    requires
        masses@.len() == positions@.len(),
        old(accelerations)@.len() == positions@.len(),
    ensures
        batch_accelerations::<A>(masses@, positions@, final(accelerations)@),
{
    store_accelerations_in_parallel::<A>(masses, positions, accelerations);
}

/// With a deterministic arithmetic, slot `i` of a batch is exactly the
/// acceleration that the single-body computation gives for body `i`.
pub proof fn batch_agrees_with_single_body<A: Arithmetic>(
    masses: Seq<A::Scalar>,
    positions: Seq<A::Vector>,
    accelerations: Seq<A::Vector>,
    i: int,
    single: A::Vector,
)
    requires
        deterministic::<A>(),
        batch_accelerations::<A>(masses, positions, accelerations),
        0 <= i < positions.len(),
        total_acceleration::<A>(masses, positions, i, single),
    ensures
        accelerations[i] == single,
{
    total_acceleration_is_single_valued::<A>(masses, positions, i, accelerations[i], single);
}

/// With a deterministic arithmetic, two batches over the same masses and
/// positions are equal, however the work was spread over threads.
pub proof fn batch_is_single_valued<A: Arithmetic>(
    masses: Seq<A::Scalar>,
    positions: Seq<A::Vector>,
    first: Seq<A::Vector>,
    second: Seq<A::Vector>,
)
    requires
        deterministic::<A>(),
        batch_accelerations::<A>(masses, positions, first),
        batch_accelerations::<A>(masses, positions, second),
    ensures
        first == second,
{
    assert forall|i: int| 0 <= i < first.len() implies first[i] == second[i] by {
        total_acceleration_is_single_valued::<A>(masses, positions, i, first[i], second[i]);
    }
    assert(first =~= second);
}

} // verus!
