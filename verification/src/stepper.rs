//! One leapfrog step of the whole ensemble.

use vstd::prelude::*;
use crate::arithmetic::Arithmetic;
use crate::arithmetic::deterministic;
use crate::arithmetic::is_finiteness;
use crate::arithmetic::is_scaled;
use crate::arithmetic::is_sum;
use crate::batch::batch_accelerations;
use crate::batch::batch_is_single_valued;
use crate::batch::compute_gravitational_acceleration_many_on_many;

verus! {

/// One body's step: `next_velocity` is `velocity + acceleration · dt`, and
/// `next_position` is `position + next_velocity · dt`, so the position moves
/// with the velocity that was just updated. `finite` tells whether the
/// acceleration and both new values are all finite.
pub open spec fn body_integrated<A: Arithmetic>(
    acceleration: A::Vector,
    position: A::Vector,
    velocity: A::Vector,
    dt: A::Scalar,
    next_position: A::Vector,
    next_velocity: A::Vector,
    finite: bool,
) -> bool {
    exists|kick: A::Vector, drift: A::Vector, a_finite: bool, v_finite: bool, p_finite: bool|
        {
            &&& is_scaled::<A>(acceleration, dt, kick)
            &&& is_sum::<A>(velocity, kick, next_velocity)
            &&& is_scaled::<A>(next_velocity, dt, drift)
            &&& is_sum::<A>(position, drift, next_position)
            &&& is_finiteness::<A>(acceleration, a_finite)
            &&& is_finiteness::<A>(next_velocity, v_finite)
            &&& is_finiteness::<A>(next_position, p_finite)
            &&& finite == (a_finite && v_finite && p_finite)
        }
}

/// Every body has been stepped, and each step was finite.
pub open spec fn integrated<A: Arithmetic>(
    accelerations: Seq<A::Vector>,
    positions: Seq<A::Vector>,
    velocities: Seq<A::Vector>,
    dt: A::Scalar,
    next_positions: Seq<A::Vector>,
    next_velocities: Seq<A::Vector>,
) -> bool {
    &&& next_positions.len() == positions.len()
    &&& next_velocities.len() == positions.len()
    &&& forall|i: int|
        #![trigger next_positions[i]]
        #![trigger next_velocities[i]]
        0 <= i < positions.len() ==> body_integrated::<A>(
            accelerations[i],
            positions[i],
            velocities[i],
            dt,
            next_positions[i],
            next_velocities[i],
            true,
        )
}

/// Body `at` is one whose step is not finite.
pub open spec fn body_breaks<A: Arithmetic>(
    accelerations: Seq<A::Vector>,
    positions: Seq<A::Vector>,
    velocities: Seq<A::Vector>,
    dt: A::Scalar,
    at: int,
) -> bool {
    &&& 0 <= at < positions.len()
    &&& exists|next_position: A::Vector, next_velocity: A::Vector|
        #[trigger] body_integrated::<A>(
            accelerations[at],
            positions[at],
            velocities[at],
            dt,
            next_position,
            next_velocity,
            false,
        )
}

/// The bodies were stepped in ascending order until body `at`, whose step is not
/// finite: the slots before `at` hold finite next values, and the slots from
/// `at` on are as they were.
pub open spec fn halted_at<A: Arithmetic>(
    accelerations: Seq<A::Vector>,
    positions: Seq<A::Vector>,
    velocities: Seq<A::Vector>,
    dt: A::Scalar,
    old_next_positions: Seq<A::Vector>,
    old_next_velocities: Seq<A::Vector>,
    next_positions: Seq<A::Vector>,
    next_velocities: Seq<A::Vector>,
    at: int,
) -> bool {
    &&& next_positions.len() == positions.len()
    &&& next_velocities.len() == positions.len()
    &&& body_breaks::<A>(accelerations, positions, velocities, dt, at)
    &&& forall|i: int|
        #![trigger next_positions[i]]
        #![trigger next_velocities[i]]
        0 <= i < at ==> body_integrated::<A>(
            accelerations[i],
            positions[i],
            velocities[i],
            dt,
            next_positions[i],
            next_velocities[i],
            true,
        )
    &&& forall|i: int|
        #![trigger next_positions[i]]
        #![trigger next_velocities[i]]
        at <= i < positions.len() ==> next_positions[i] == old_next_positions[i]
            && next_velocities[i] == old_next_velocities[i]
}

/// A step from `(positions, velocities)` that is finite for every body leads to
/// `(next_positions, next_velocities)`.
pub open spec fn step_completes<A: Arithmetic>(
    masses: Seq<A::Scalar>,
    dt: A::Scalar,
    positions: Seq<A::Vector>,
    velocities: Seq<A::Vector>,
    next_positions: Seq<A::Vector>,
    next_velocities: Seq<A::Vector>,
) -> bool {
    exists|accelerations: Seq<A::Vector>|
        {
            &&& batch_accelerations::<A>(masses, positions, accelerations)
            &&& #[trigger] integrated::<A>(
                accelerations,
                positions,
                velocities,
                dt,
                next_positions,
                next_velocities,
            )
        }
}

/// A step from `(positions, velocities)` is not finite for some body.
pub open spec fn step_breaks<A: Arithmetic>(
    masses: Seq<A::Scalar>,
    dt: A::Scalar,
    positions: Seq<A::Vector>,
    velocities: Seq<A::Vector>,
) -> bool {
    exists|accelerations: Seq<A::Vector>, at: int|
        {
            &&& batch_accelerations::<A>(masses, positions, accelerations)
            &&& #[trigger] body_breaks::<A>(accelerations, positions, velocities, dt, at)
        }
}

/// Steps one body: the new position, the new velocity, and whether the
/// acceleration and both of them are finite.
pub fn integrate_body<A: Arithmetic>(
    acceleration: A::Vector,
    position: A::Vector,
    velocity: A::Vector,
    dt: A::Scalar,
) -> (next: (A::Vector, A::Vector, bool))
    ensures
        body_integrated::<A>(acceleration, position, velocity, dt, next.0, next.1, next.2),
{
    let kick = A::scaled(acceleration, dt);
    let next_velocity = A::sum(velocity, kick);
    let drift = A::scaled(next_velocity, dt);
    let next_position = A::sum(position, drift);
    let a_finite = A::is_finite(acceleration);
    let v_finite = A::is_finite(next_velocity);
    let p_finite = A::is_finite(next_position);
    (next_position, next_velocity, a_finite && v_finite && p_finite)
}

/// Steps the bodies in ascending order, writing each one's next state, and stops
/// at the first body whose step is not finite.
///
/// Returns `true` when every body was stepped. On `false` the next-state buffers
/// hold a partial step and are of no use to the caller.
pub fn integrate_bodies<A: Arithmetic>(
    accelerations: &[A::Vector],
    positions: &[A::Vector],
    velocities: &[A::Vector],
    dt: A::Scalar,
    next_positions: &mut [A::Vector],
    next_velocities: &mut [A::Vector],
) -> (ok: bool)
    requires
        accelerations@.len() == positions@.len(),
        velocities@.len() == positions@.len(),
        old(next_positions)@.len() == positions@.len(),
        old(next_velocities)@.len() == positions@.len(),
    ensures
        ok ==> integrated::<A>(
            accelerations@,
            positions@,
            velocities@,
            dt,
            final(next_positions)@,
            final(next_velocities)@,
        ),
        !ok ==> exists|at: int|
            halted_at::<A>(
                accelerations@,
                positions@,
                velocities@,
                dt,
                old(next_positions)@,
                old(next_velocities)@,
                final(next_positions)@,
                final(next_velocities)@,
                at,
            ),
{
    let n: usize = positions.len();
    let mut i: usize = 0;
    while i < n
        invariant
            n == positions@.len(),
            accelerations@.len() == n,
            velocities@.len() == n,
            next_positions@.len() == n,
            next_velocities@.len() == n,
            i <= n,
            forall|j: int|
                #![trigger next_positions@[j]]
                #![trigger next_velocities@[j]]
                0 <= j < i ==> body_integrated::<A>(
                    accelerations@[j],
                    positions@[j],
                    velocities@[j],
                    dt,
                    next_positions@[j],
                    next_velocities@[j],
                    true,
                ),
            forall|j: int|
                #![trigger next_positions@[j]]
                #![trigger next_velocities@[j]]
                i <= j < n ==> next_positions@[j] == old(next_positions)@[j]
                    && next_velocities@[j] == old(next_velocities)@[j],
        decreases n - i,
    {
        let (next_position, next_velocity, finite) = integrate_body::<A>(
            accelerations[i],
            positions[i],
            velocities[i],
            dt,
        );
        if !finite {
            proof {
                assert(body_breaks::<A>(accelerations@, positions@, velocities@, dt, i as int));
                assert(halted_at::<A>(
                    accelerations@,
                    positions@,
                    velocities@,
                    dt,
                    old(next_positions)@,
                    old(next_velocities)@,
                    next_positions@,
                    next_velocities@,
                    i as int,
                ));
            }
            return false;
        }
        next_positions[i] = next_position;
        next_velocities[i] = next_velocity;
        i += 1;
    }
    true
}

/// One leapfrog step: the accelerations of all bodies from the current
/// positions, then each body's velocity and position in turn.
///
/// `accelerations` is working space of the ensemble's size and is overwritten.
/// Returns `true` when the step is finite for every body; `next_positions` and
/// `next_velocities` then hold the next state. On `false` they hold a partial
/// step. The current state is only read.
pub fn leapfrog_step<A: Arithmetic>(
    masses: &[A::Scalar],
    positions: &[A::Vector],
    velocities: &[A::Vector],
    dt: A::Scalar,
    accelerations: &mut [A::Vector],
    next_positions: &mut [A::Vector],
    next_velocities: &mut [A::Vector],
) -> (ok: bool)
    requires
        masses@.len() == positions@.len(),
        velocities@.len() == positions@.len(),
        old(accelerations)@.len() == positions@.len(),
        old(next_positions)@.len() == positions@.len(),
        old(next_velocities)@.len() == positions@.len(),
    ensures
        batch_accelerations::<A>(masses@, positions@, final(accelerations)@),
        ok ==> integrated::<A>(
            final(accelerations)@,
            positions@,
            velocities@,
            dt,
            final(next_positions)@,
            final(next_velocities)@,
        ),
        !ok ==> exists|at: int|
            halted_at::<A>(
                final(accelerations)@,
                positions@,
                velocities@,
                dt,
                old(next_positions)@,
                old(next_velocities)@,
                final(next_positions)@,
                final(next_velocities)@,
                at,
            ),
        ok ==> step_completes::<A>(
            masses@,
            dt,
            positions@,
            velocities@,
            final(next_positions)@,
            final(next_velocities)@,
        ),
        !ok ==> step_breaks::<A>(masses@, dt, positions@, velocities@),
{
    compute_gravitational_acceleration_many_on_many::<A>(masses, positions, accelerations);
    let ok = integrate_bodies::<A>(
        accelerations,
        positions,
        velocities,
        dt,
        next_positions,
        next_velocities,
    );
    ok
}

/// With a deterministic arithmetic one body's step has one outcome.
pub proof fn body_integrated_is_single_valued<A: Arithmetic>(
    acceleration: A::Vector,
    position: A::Vector,
    velocity: A::Vector,
    dt: A::Scalar,
    first: (A::Vector, A::Vector, bool),
    second: (A::Vector, A::Vector, bool),
)
    requires
        deterministic::<A>(),
        body_integrated::<A>(acceleration, position, velocity, dt, first.0, first.1, first.2),
        body_integrated::<A>(acceleration, position, velocity, dt, second.0, second.1, second.2),
    ensures
        first == second,
{
}

/// With a deterministic arithmetic a state has at most one next state.
pub proof fn step_completes_is_single_valued<A: Arithmetic>(
    masses: Seq<A::Scalar>,
    dt: A::Scalar,
    positions: Seq<A::Vector>,
    velocities: Seq<A::Vector>,
    first: (Seq<A::Vector>, Seq<A::Vector>),
    second: (Seq<A::Vector>, Seq<A::Vector>),
)
    requires
        deterministic::<A>(),
        step_completes::<A>(masses, dt, positions, velocities, first.0, first.1),
        step_completes::<A>(masses, dt, positions, velocities, second.0, second.1),
    ensures
        first == second,
{
    let a1 = choose|accelerations: Seq<A::Vector>|
        {
            &&& batch_accelerations::<A>(masses, positions, accelerations)
            &&& #[trigger] integrated::<A>(
                accelerations,
                positions,
                velocities,
                dt,
                first.0,
                first.1,
            )
        };
    let a2 = choose|accelerations: Seq<A::Vector>|
        {
            &&& batch_accelerations::<A>(masses, positions, accelerations)
            &&& #[trigger] integrated::<A>(
                accelerations,
                positions,
                velocities,
                dt,
                second.0,
                second.1,
            )
        };
    batch_is_single_valued::<A>(masses, positions, a1, a2);
    assert forall|i: int| 0 <= i < positions.len() implies first.0[i] == second.0[i] && first.1[i]
        == second.1[i] by {
        body_integrated_is_single_valued::<A>(
            a1[i],
            positions[i],
            velocities[i],
            dt,
            (first.0[i], first.1[i], true),
            (second.0[i], second.1[i], true),
        );
    }
    assert(first.0 =~= second.0);
    assert(first.1 =~= second.1);
}

/// With a deterministic arithmetic a step either completes or breaks, never
/// both: a state that has a next state has no body whose step is not finite.
pub proof fn step_outcome_is_decided<A: Arithmetic>(
    masses: Seq<A::Scalar>,
    dt: A::Scalar,
    positions: Seq<A::Vector>,
    velocities: Seq<A::Vector>,
    next_positions: Seq<A::Vector>,
    next_velocities: Seq<A::Vector>,
)
    requires
        deterministic::<A>(),
        step_completes::<A>(masses, dt, positions, velocities, next_positions, next_velocities),
    ensures
        !step_breaks::<A>(masses, dt, positions, velocities),
{
    if step_breaks::<A>(masses, dt, positions, velocities) {
        let a1 = choose|accelerations: Seq<A::Vector>|
            {
                &&& batch_accelerations::<A>(masses, positions, accelerations)
                &&& #[trigger] integrated::<A>(
                    accelerations,
                    positions,
                    velocities,
                    dt,
                    next_positions,
                    next_velocities,
                )
            };
        let (a2, at) = choose|accelerations: Seq<A::Vector>, at: int|
            {
                &&& batch_accelerations::<A>(masses, positions, accelerations)
                &&& #[trigger] body_breaks::<A>(accelerations, positions, velocities, dt, at)
            };
        batch_is_single_valued::<A>(masses, positions, a1, a2);
        let (broken_position, broken_velocity) = choose|
            next_position: A::Vector,
            next_velocity: A::Vector,
        |
            #[trigger] body_integrated::<A>(
                a2[at],
                positions[at],
                velocities[at],
                dt,
                next_position,
                next_velocity,
                false,
            );
        body_integrated_is_single_valued::<A>(
            a1[at],
            positions[at],
            velocities[at],
            dt,
            (next_positions[at], next_velocities[at], true),
            (broken_position, broken_velocity, false),
        );
    }
}

} // verus!
