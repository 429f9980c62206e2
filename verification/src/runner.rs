//! Many leapfrog steps over two alternating state buffers.

use vstd::prelude::*;
use vstd::slice::slice_to_vec;
use crate::arithmetic::Arithmetic;
use crate::arithmetic::deterministic;
use crate::stepper::leapfrog_step;
use crate::stepper::step_breaks;
use crate::stepper::step_completes;
use crate::stepper::step_completes_is_single_valued;
use crate::stepper::step_outcome_is_decided;

verus! {

/// `(positions, velocities)` is the state after `steps` finite steps from
/// `(start_positions, start_velocities)`.
pub open spec fn reaches<A: Arithmetic>(
    masses: Seq<A::Scalar>,
    dt: A::Scalar,
    start_positions: Seq<A::Vector>,
    start_velocities: Seq<A::Vector>,
    steps: nat,
    positions: Seq<A::Vector>,
    velocities: Seq<A::Vector>,
) -> bool
    decreases steps,
{
    if steps == 0 {
        positions == start_positions && velocities == start_velocities
    } else {
        exists|before_positions: Seq<A::Vector>, before_velocities: Seq<A::Vector>|
            {
                &&& reaches::<A>(
                    masses,
                    dt,
                    start_positions,
                    start_velocities,
                    (steps - 1) as nat,
                    before_positions,
                    before_velocities,
                )
                &&& #[trigger] step_completes::<A>(
                    masses,
                    dt,
                    before_positions,
                    before_velocities,
                    positions,
                    velocities,
                )
            }
    }
}

/// What a run of up to `requested_steps` steps may end in: `actual_steps` steps
/// were taken, `(positions, velocities)` is the state after them, and if fewer
/// were taken than requested, the next step from that state is not finite.
pub open spec fn run_outcome<A: Arithmetic>(
    requested_steps: nat,
    masses: Seq<A::Scalar>,
    dt: A::Scalar,
    start_positions: Seq<A::Vector>,
    start_velocities: Seq<A::Vector>,
    actual_steps: nat,
    positions: Seq<A::Vector>,
    velocities: Seq<A::Vector>,
) -> bool {
    &&& actual_steps <= requested_steps
    &&& reaches::<A>(
        masses,
        dt,
        start_positions,
        start_velocities,
        actual_steps,
        positions,
        velocities,
    )
    &&& actual_steps < requested_steps ==> step_breaks::<A>(masses, dt, positions, velocities)
}

/// Whether a run goes on.
enum RunState {
    /// No step has failed so far.
    Running,
    /// A step was not finite; no further step is taken.
    Halted,
}

/// Copies `source` over `target`.
fn overwrite<T: Copy>(target: &mut [T], source: &[T])
    requires
        old(target)@.len() == source@.len(),
    ensures
        final(target)@ == source@,
{
    let n: usize = source.len();
    let mut i: usize = 0;
    while i < n
        invariant
            n == source@.len(),
            target@.len() == n,
            i <= n,
            forall|j: int| 0 <= j < i ==> target@[j] == source@[j],
        decreases n - i,
    {
        target[i] = source[i];
        i += 1;
    }
    assert(target@ =~= source@);
}

/// Takes up to `requested_steps` leapfrog steps of duration `dt` and returns how
/// many were taken. The run halts at the first step that is not finite for some
/// body.
///
/// Each step reads one pair of buffers and writes the other: the caller's
/// `positions` and `velocities`, and a pair of the same size held here. After a
/// successful step the two pairs change roles. On return the caller's pair holds
/// the state after the last successful step, whichever pair that step wrote to,
/// and nothing of a step that failed.
pub fn run_steps<A: Arithmetic>(
    requested_steps: usize,
    dt: A::Scalar,
    masses: &[A::Scalar],
    positions: &mut [A::Vector],
    velocities: &mut [A::Vector],
) -> (actual_steps: usize)
    requires
        masses@.len() == old(positions)@.len(),
        old(velocities)@.len() == old(positions)@.len(),
    ensures
        run_outcome::<A>(
            requested_steps as nat,
            masses@,
            dt,
            old(positions)@,
            old(velocities)@,
            actual_steps as nat,
            final(positions)@,
            final(velocities)@,
        ),
        actual_steps == 0 ==> final(positions)@ == old(positions)@ && final(velocities)@ == old(
            velocities,
        )@,
        final(positions)@.len() == old(positions)@.len(),
        final(velocities)@.len() == old(velocities)@.len(),
{
    let mut accelerations = slice_to_vec(positions);
    let mut other_positions = slice_to_vec(positions);
    let mut other_velocities = slice_to_vec(velocities);
    let ghost n = positions@.len();
    let ghost mut current_positions = positions@;
    let ghost mut current_velocities = velocities@;
    let mut completed: usize = 0;
    let mut state = RunState::Running;
    while completed < requested_steps && matches!(state, RunState::Running)
        invariant
            completed <= requested_steps,
            masses@.len() == n,
            positions@.len() == n,
            velocities@.len() == n,
            old(positions)@.len() == n,
            old(velocities)@.len() == n,
            accelerations@.len() == n,
            other_positions@.len() == n,
            other_velocities@.len() == n,
            current_positions.len() == n,
            current_velocities.len() == n,
            completed % 2 == 0 ==> positions@ == current_positions && velocities@
                == current_velocities,
            completed % 2 == 1 ==> other_positions@ == current_positions && other_velocities@
                == current_velocities,
            reaches::<A>(
                masses@,
                dt,
                old(positions)@,
                old(velocities)@,
                completed as nat,
                current_positions,
                current_velocities,
            ),
            state is Halted ==> step_breaks::<A>(
                masses@,
                dt,
                current_positions,
                current_velocities,
            ),
        decreases requested_steps - completed, if state is Halted { 0int } else { 1int },
    {
        let ok = if completed % 2 == 0 {
            leapfrog_step::<A>(
                masses,
                positions,
                velocities,
                dt,
                &mut accelerations,
                &mut other_positions,
                &mut other_velocities,
            )
        } else {
            leapfrog_step::<A>(
                masses,
                &other_positions,
                &other_velocities,
                dt,
                &mut accelerations,
                positions,
                velocities,
            )
        };
        if ok {
            proof {
                let next_positions = if completed % 2 == 0 {
                    other_positions@
                } else {
                    positions@
                };
                let next_velocities = if completed % 2 == 0 {
                    other_velocities@
                } else {
                    velocities@
                };
                assert(step_completes::<A>(
                    masses@,
                    dt,
                    current_positions,
                    current_velocities,
                    next_positions,
                    next_velocities,
                ));
                assert(reaches::<A>(
                    masses@,
                    dt,
                    old(positions)@,
                    old(velocities)@,
                    (completed + 1) as nat,
                    next_positions,
                    next_velocities,
                ));
                current_positions = next_positions;
                current_velocities = next_velocities;
            }
            completed += 1;
        } else {
            state = RunState::Halted;
        }
    }
    if completed % 2 == 1 {
        overwrite(positions, &other_positions);
        overwrite(velocities, &other_velocities);
    }
    completed
}

/// A run that took no step left the state as it was: a first step that fails
/// changes nothing the caller can see.
pub proof fn run_of_no_steps_changes_nothing<A: Arithmetic>(
    requested_steps: nat,
    masses: Seq<A::Scalar>,
    dt: A::Scalar,
    start_positions: Seq<A::Vector>,
    start_velocities: Seq<A::Vector>,
    positions: Seq<A::Vector>,
    velocities: Seq<A::Vector>,
)
    requires
        run_outcome::<A>(
            requested_steps,
            masses,
            dt,
            start_positions,
            start_velocities,
            0,
            positions,
            velocities,
        ),
    ensures
        positions == start_positions,
        velocities == start_velocities,
{
}

/// A run that halted after `actual_steps` steps ends exactly as a run that was
/// asked for `actual_steps` steps and took them all, whether that number is odd
/// or even.
pub proof fn halted_run_ends_as_shorter_run<A: Arithmetic>(
    requested_steps: nat,
    masses: Seq<A::Scalar>,
    dt: A::Scalar,
    start_positions: Seq<A::Vector>,
    start_velocities: Seq<A::Vector>,
    actual_steps: nat,
    positions: Seq<A::Vector>,
    velocities: Seq<A::Vector>,
)
    requires
        run_outcome::<A>(
            requested_steps,
            masses,
            dt,
            start_positions,
            start_velocities,
            actual_steps,
            positions,
            velocities,
        ),
    ensures
        run_outcome::<A>(
            actual_steps,
            masses,
            dt,
            start_positions,
            start_velocities,
            actual_steps,
            positions,
            velocities,
        ),
{
}

/// With a deterministic arithmetic there is one state after a given number of
/// steps.
pub proof fn reaches_is_single_valued<A: Arithmetic>(
    masses: Seq<A::Scalar>,
    dt: A::Scalar,
    start_positions: Seq<A::Vector>,
    start_velocities: Seq<A::Vector>,
    steps: nat,
    first: (Seq<A::Vector>, Seq<A::Vector>),
    second: (Seq<A::Vector>, Seq<A::Vector>),
)
    requires
        deterministic::<A>(),
        reaches::<A>(masses, dt, start_positions, start_velocities, steps, first.0, first.1),
        reaches::<A>(masses, dt, start_positions, start_velocities, steps, second.0, second.1),
    ensures
        first == second,
    decreases steps,
{
    if steps > 0 {
        let before_first = choose|
            before_positions: Seq<A::Vector>,
            before_velocities: Seq<A::Vector>,
        |
            {
                &&& reaches::<A>(
                    masses,
                    dt,
                    start_positions,
                    start_velocities,
                    (steps - 1) as nat,
                    before_positions,
                    before_velocities,
                )
                &&& #[trigger] step_completes::<A>(
                    masses,
                    dt,
                    before_positions,
                    before_velocities,
                    first.0,
                    first.1,
                )
            };
        let before_second = choose|
            before_positions: Seq<A::Vector>,
            before_velocities: Seq<A::Vector>,
        |
            {
                &&& reaches::<A>(
                    masses,
                    dt,
                    start_positions,
                    start_velocities,
                    (steps - 1) as nat,
                    before_positions,
                    before_velocities,
                )
                &&& #[trigger] step_completes::<A>(
                    masses,
                    dt,
                    before_positions,
                    before_velocities,
                    second.0,
                    second.1,
                )
            };
        reaches_is_single_valued::<A>(
            masses,
            dt,
            start_positions,
            start_velocities,
            (steps - 1) as nat,
            before_first,
            before_second,
        );
        step_completes_is_single_valued::<A>(
            masses,
            dt,
            before_first.0,
            before_first.1,
            first,
            second,
        );
    }
}

/// A state after `steps` steps lies on a path through a state after each
/// smaller number of steps, and that state has a next state.
pub proof fn reaches_passes_through<A: Arithmetic>(
    masses: Seq<A::Scalar>,
    dt: A::Scalar,
    start_positions: Seq<A::Vector>,
    start_velocities: Seq<A::Vector>,
    steps: nat,
    positions: Seq<A::Vector>,
    velocities: Seq<A::Vector>,
    earlier: nat,
) -> (passed: (Seq<A::Vector>, Seq<A::Vector>, Seq<A::Vector>, Seq<A::Vector>))
    requires
        reaches::<A>(masses, dt, start_positions, start_velocities, steps, positions, velocities),
        earlier < steps,
    ensures
        reaches::<A>(masses, dt, start_positions, start_velocities, earlier, passed.0, passed.1),
        step_completes::<A>(masses, dt, passed.0, passed.1, passed.2, passed.3),
    decreases steps,
{
    let before = choose|before_positions: Seq<A::Vector>, before_velocities: Seq<A::Vector>|
        {
            &&& reaches::<A>(
                masses,
                dt,
                start_positions,
                start_velocities,
                (steps - 1) as nat,
                before_positions,
                before_velocities,
            )
            &&& #[trigger] step_completes::<A>(
                masses,
                dt,
                before_positions,
                before_velocities,
                positions,
                velocities,
            )
        };
    if earlier == steps - 1 {
        (before.0, before.1, positions, velocities)
    } else {
        reaches_passes_through::<A>(
            masses,
            dt,
            start_positions,
            start_velocities,
            (steps - 1) as nat,
            before.0,
            before.1,
            earlier,
        )
    }
}

/// With a deterministic arithmetic a run has one outcome: the number of steps
/// taken and the state left to the caller are fixed by the request, the masses,
/// the step duration and the starting state. A run that halts before step `k`
/// therefore leaves exactly the state that a run of `k` steps leaves, for odd
/// and for even `k` alike.
pub proof fn run_outcome_is_single_valued<A: Arithmetic>(
    requested_steps: nat,
    masses: Seq<A::Scalar>,
    dt: A::Scalar,
    start_positions: Seq<A::Vector>,
    start_velocities: Seq<A::Vector>,
    first: (nat, Seq<A::Vector>, Seq<A::Vector>),
    second: (nat, Seq<A::Vector>, Seq<A::Vector>),
)
    requires
        deterministic::<A>(),
        run_outcome::<A>(
            requested_steps,
            masses,
            dt,
            start_positions,
            start_velocities,
            first.0,
            first.1,
            first.2,
        ),
        run_outcome::<A>(
            requested_steps,
            masses,
            dt,
            start_positions,
            start_velocities,
            second.0,
            second.1,
            second.2,
        ),
    ensures
        first == second,
{
    if first.0 < second.0 {
        halted_run_goes_no_further::<A>(
            masses,
            dt,
            start_positions,
            start_velocities,
            first.0,
            first.1,
            first.2,
            second.0,
            second.1,
            second.2,
        );
    } else if second.0 < first.0 {
        halted_run_goes_no_further::<A>(
            masses,
            dt,
            start_positions,
            start_velocities,
            second.0,
            second.1,
            second.2,
            first.0,
            first.1,
            first.2,
        );
    } else {
        reaches_is_single_valued::<A>(
            masses,
            dt,
            start_positions,
            start_velocities,
            first.0,
            (first.1, first.2),
            (second.1, second.2),
        );
    }
}

/// With a deterministic arithmetic, once the step from the state after `steps`
/// steps is not finite, no state lies further on.
pub proof fn halted_run_goes_no_further<A: Arithmetic>(
    masses: Seq<A::Scalar>,
    dt: A::Scalar,
    start_positions: Seq<A::Vector>,
    start_velocities: Seq<A::Vector>,
    steps: nat,
    positions: Seq<A::Vector>,
    velocities: Seq<A::Vector>,
    later: nat,
    later_positions: Seq<A::Vector>,
    later_velocities: Seq<A::Vector>,
)
    requires
        deterministic::<A>(),
        reaches::<A>(masses, dt, start_positions, start_velocities, steps, positions, velocities),
        step_breaks::<A>(masses, dt, positions, velocities),
        steps < later,
    ensures
        !reaches::<A>(
            masses,
            dt,
            start_positions,
            start_velocities,
            later,
            later_positions,
            later_velocities,
        ),
{
    if reaches::<A>(
        masses,
        dt,
        start_positions,
        start_velocities,
        later,
        later_positions,
        later_velocities,
    ) {
        let passed = reaches_passes_through::<A>(
            masses,
            dt,
            start_positions,
            start_velocities,
            later,
            later_positions,
            later_velocities,
            steps,
        );
        reaches_is_single_valued::<A>(
            masses,
            dt,
            start_positions,
            start_velocities,
            steps,
            (positions, velocities),
            (passed.0, passed.1),
        );
        step_outcome_is_decided::<A>(masses, dt, positions, velocities, passed.2, passed.3);
    }
}

} // verus!
