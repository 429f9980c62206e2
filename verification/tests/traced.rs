use mechanics_fast::{
    compute_gravitational_acceleration_many_on_many,
    compute_gravitational_acceleration_many_on_one,
    compute_gravitational_acceleration_one_on_one, integrate_bodies, integrate_body,
    leapfrog_step, run_steps, Arithmetic, GRAVITATIONAL_CONSTANT_BITS,
};

/// Integers modulo 2^64 in which every operation is a different map, none of
/// them symmetric in its arguments: a result tells which operations were
/// applied to which values in which order.
struct Traced;

fn mix(a: u64, ka: u64, b: u64, kb: u64, c: u64) -> u64 {
    a.wrapping_mul(ka).wrapping_add(b.wrapping_mul(kb)).wrapping_add(c)
}

impl Arithmetic for Traced {
    type Scalar = u64;
    type Vector = u64;

    fn scalar_from_bits(bits: u64) -> u64 {
        mix(bits, 3, 0, 0, 1)
    }

    fn product(a: u64, b: u64) -> u64 {
        mix(a, 5, b, 7, 2)
    }

    fn zero() -> u64 {
        1_000_003
    }

    fn magnitude(v: u64) -> u64 {
        mix(v, 11, 0, 0, 4)
    }

    fn scaled(v: u64, s: u64) -> u64 {
        mix(v, 13, s, 17, 6)
    }

    fn divided(v: u64, s: u64) -> u64 {
        mix(v, 19, s, 23, 8)
    }

    fn sum(a: u64, b: u64) -> u64 {
        mix(a, 29, b, 31, 10)
    }

    fn difference(a: u64, b: u64) -> u64 {
        mix(a, 37, b, 41, 12)
    }

    fn is_finite(v: u64) -> bool {
        v % 5 != 0
    }
}

fn law(d: u64, m: u64) -> u64 {
    let distance = Traced::magnitude(d);
    let strength = Traced::product(Traced::scalar_from_bits(GRAVITATIONAL_CONSTANT_BITS), m);
    let cube = Traced::product(Traced::product(distance, distance), distance);
    Traced::divided(Traced::scaled(d, strength), cube)
}

fn total(masses: &[u64], positions: &[u64], target: usize) -> u64 {
    let mut acc = Traced::zero();
    for i in 0..masses.len() {
        if i != target {
            let d = Traced::difference(positions[i], positions[target]);
            acc = Traced::sum(acc, law(d, masses[i]));
        }
    }
    acc
}

fn body(a: u64, p: u64, v: u64, dt: u64) -> (u64, u64, bool) {
    let next_v = Traced::sum(v, Traced::scaled(a, dt));
    let next_p = Traced::sum(p, Traced::scaled(next_v, dt));
    let finite =
        Traced::is_finite(a) && Traced::is_finite(next_v) && Traced::is_finite(next_p);
    (next_p, next_v, finite)
}

/// The next state, or `None` when some body's step is not finite.
fn step(
    masses: &[u64],
    positions: &[u64],
    velocities: &[u64],
    dt: u64,
) -> Option<(Vec<u64>, Vec<u64>)> {
    let mut next_positions = Vec::new();
    let mut next_velocities = Vec::new();
    for i in 0..positions.len() {
        let (p, v, finite) = body(total(masses, positions, i), positions[i], velocities[i], dt);
        if !finite {
            return None;
        }
        next_positions.push(p);
        next_velocities.push(v);
    }
    Some((next_positions, next_velocities))
}

#[test]
fn law_composes_its_operations_as_documented() {
    let g = GRAVITATIONAL_CONSTANT_BITS.wrapping_mul(3).wrapping_add(1);
    let d: u64 = 21;
    let m: u64 = 8;
    let strength = g.wrapping_mul(5).wrapping_add(7 * 8 + 2);
    let pull = strength.wrapping_mul(17).wrapping_add(13 * 21 + 6);
    let distance: u64 = 11 * 21 + 4;
    let square: u64 = 5 * distance + 7 * distance + 2;
    let cube: u64 = 5 * square + 7 * distance + 2;
    let expected = pull.wrapping_mul(19).wrapping_add(23 * cube + 8);
    assert_eq!(compute_gravitational_acceleration_one_on_one::<Traced>(d, m), expected);
    assert_eq!(law(d, m), expected);
}

#[test]
fn sum_visits_the_other_bodies_in_ascending_order() {
    let masses = [2u64, 3, 5, 7];
    let positions = [100u64, 200, 300, 400];
    let target = 1;
    let f = |i: usize| law(Traced::difference(positions[i], positions[target]), masses[i]);
    let expected = Traced::sum(Traced::sum(Traced::sum(Traced::zero(), f(0)), f(2)), f(3));
    let actual =
        compute_gravitational_acceleration_many_on_one::<Traced>(&masses, &positions, target);
    assert_eq!(actual, expected);
    // any other order gives another value
    let shuffled = Traced::sum(Traced::sum(Traced::sum(Traced::zero(), f(2)), f(0)), f(3));
    assert_ne!(actual, shuffled);
    // and so does a sum that takes the target in
    let with_self = Traced::sum(
        Traced::sum(Traced::sum(Traced::sum(Traced::zero(), f(0)), f(1)), f(2)),
        f(3),
    );
    assert_ne!(actual, with_self);
}

#[test]
fn sum_over_each_target_of_an_ensemble() {
    let masses = [9u64, 8, 7, 6, 5];
    let positions = [1u64, 22, 333, 4444, 55555];
    for target in 0..5 {
        assert_eq!(
            compute_gravitational_acceleration_many_on_one::<Traced>(&masses, &positions, target),
            total(&masses, &positions, target)
        );
    }
    assert_eq!(
        compute_gravitational_acceleration_many_on_one::<Traced>(&[9], &[1], 0),
        Traced::zero()
    );
}

#[test]
fn batch_overwrites_every_slot_with_that_body_s_sum() {
    let masses = [9u64, 8, 7, 6, 5];
    let positions = [1u64, 22, 333, 4444, 55555];
    let mut accelerations = [0u64; 5];
    compute_gravitational_acceleration_many_on_many::<Traced>(
        &masses,
        &positions,
        &mut accelerations,
    );
    for i in 0..5 {
        assert_eq!(accelerations[i], total(&masses, &positions, i));
        assert_eq!(
            accelerations[i],
            compute_gravitational_acceleration_many_on_one::<Traced>(&masses, &positions, i)
        );
    }
}

#[test]
fn body_step_composes_its_operations_as_documented() {
    let (a, p, v, dt) = (3u64, 1000u64, 50u64, 2u64);
    let kick: u64 = 13 * 3 + 17 * 2 + 6;
    let next_v: u64 = 29 * 50 + 31 * kick + 10;
    let drift: u64 = 13 * next_v + 17 * 2 + 6;
    let next_p: u64 = 29 * 1000 + 31 * drift + 10;
    let finite = 3 % 5 != 0 && next_v % 5 != 0 && next_p % 5 != 0;
    assert_eq!(integrate_body::<Traced>(a, p, v, dt), (next_p, next_v, finite));
    assert_eq!(body(a, p, v, dt), (next_p, next_v, finite));
}

#[test]
fn body_step_is_finite_only_if_all_three_values_are() {
    let mut seen = [false; 8];
    for a in 0..40u64 {
        for v in 0..40u64 {
            for p in 7..10u64 {
                let (next_p, next_v, finite) = integrate_body::<Traced>(a, p, v, 3);
                let flags = (a % 5 != 0, next_v % 5 != 0, next_p % 5 != 0);
                assert_eq!(finite, flags.0 && flags.1 && flags.2);
                seen[(flags.0 as usize) * 4 + (flags.1 as usize) * 2 + flags.2 as usize] = true;
            }
        }
    }
    assert!(seen.iter().all(|s| *s));
}

#[test]
fn integration_stops_at_the_first_body_that_breaks() {
    let mut checked_full = 0;
    let mut checked_halt = [0; 4];
    for seed in 0..400u64 {
        let accelerations = [seed + 1, 2 * seed + 3, seed * seed + 4, 7 * seed + 2];
        let positions = [seed + 10, 3 * seed + 20, 7 * seed + 31, 11 * seed + 40];
        let velocities = [3 * seed + 1, seed + 2, 9 * seed + 3, 13 * seed + 4];
        let dt = seed % 7 + 1;
        let mut next_positions = [u64::MAX; 4];
        let mut next_velocities = [u64::MAX - 1; 4];
        let ok = integrate_bodies::<Traced>(
            &accelerations,
            &positions,
            &velocities,
            dt,
            &mut next_positions,
            &mut next_velocities,
        );
        let outcomes: Vec<(u64, u64, bool)> =
            (0..4).map(|i| body(accelerations[i], positions[i], velocities[i], dt)).collect();
        let first_break = outcomes.iter().position(|o| !o.2);
        assert_eq!(ok, first_break.is_none());
        let stepped = first_break.unwrap_or(4);
        for i in 0..4 {
            if i < stepped {
                assert_eq!((next_positions[i], next_velocities[i]), (outcomes[i].0, outcomes[i].1));
            } else {
                assert_eq!((next_positions[i], next_velocities[i]), (u64::MAX, u64::MAX - 1));
            }
        }
        match first_break {
            None => checked_full += 1,
            Some(i) => checked_halt[i] += 1,
        }
    }
    assert!(checked_full > 0);
    assert!(checked_halt.iter().all(|c| *c > 0));
}

#[test]
fn leapfrog_step_takes_accelerations_from_the_current_positions() {
    let mut completed = 0;
    let mut broken = 0;
    for seed in 0..60u64 {
        let masses = [seed + 2, seed + 3, seed + 5];
        let positions = [11 * seed + 1, 13 * seed + 2, 17 * seed + 3];
        let velocities = [seed + 7, 2 * seed + 7, 3 * seed + 7];
        let dt = seed % 4 + 1;
        let mut accelerations = [0u64; 3];
        let mut next_positions = [0u64; 3];
        let mut next_velocities = [0u64; 3];
        let ok = leapfrog_step::<Traced>(
            &masses,
            &positions,
            &velocities,
            dt,
            &mut accelerations,
            &mut next_positions,
            &mut next_velocities,
        );
        for i in 0..3 {
            assert_eq!(accelerations[i], total(&masses, &positions, i));
        }
        match step(&masses, &positions, &velocities, dt) {
            Some((p, v)) => {
                assert!(ok);
                assert_eq!(next_positions.to_vec(), p);
                assert_eq!(next_velocities.to_vec(), v);
                completed += 1;
            }
            None => {
                assert!(!ok);
                broken += 1;
            }
        }
    }
    assert!(completed > 0 && broken > 0);
}

#[test]
fn a_run_ends_in_the_state_after_its_last_finite_step() {
    let mut halted_after = [0; 6];
    let mut ran_to_end = 0;
    for seed in 0..3000u64 {
        let masses = [seed + 2, 3 * seed + 1];
        let start_positions = [5 * seed + 1, 7 * seed + 2];
        let start_velocities = [seed + 9, 2 * seed + 9];
        let dt = seed % 3 + 1;
        let requested = 6;

        let mut expected_positions = start_positions.to_vec();
        let mut expected_velocities = start_velocities.to_vec();
        let mut expected_steps = 0;
        while expected_steps < requested {
            match step(&masses, &expected_positions, &expected_velocities, dt) {
                Some((p, v)) => {
                    expected_positions = p;
                    expected_velocities = v;
                    expected_steps += 1;
                }
                None => break,
            }
        }

        let mut positions = start_positions;
        let mut velocities = start_velocities;
        let actual = run_steps::<Traced>(requested, dt, &masses, &mut positions, &mut velocities);
        assert_eq!(actual, expected_steps);
        assert_eq!(positions.to_vec(), expected_positions);
        assert_eq!(velocities.to_vec(), expected_velocities);
        if actual == 0 {
            assert_eq!(positions, start_positions);
            assert_eq!(velocities, start_velocities);
        }
        if actual < requested {
            halted_after[actual] += 1;
        } else {
            ran_to_end += 1;
        }
    }
    // runs halted after each even and each odd number of steps were seen
    assert!(halted_after.iter().all(|c| *c > 0), "{:?}", halted_after);
    assert!(ran_to_end > 0);
}

#[test]
fn a_run_never_takes_more_steps_than_requested() {
    let masses = [4u64, 6];
    for requested in 0..5usize {
        let mut positions = [1u64, 2];
        let mut velocities = [3u64, 4];
        let actual = run_steps::<Traced>(requested, 1, &masses, &mut positions, &mut velocities);
        assert!(actual <= requested);
    }
}
