//! A Newtonian N-body kernel: the pairwise law of gravitation, its sum over an
//! ensemble of point masses, and a leapfrog integrator driven over two
//! alternating state buffers.
//!
//! The kernel never touches a number itself. Every arithmetic step goes through
//! the host's [`Arithmetic`], and every contract states which operations were
//! applied to which values, in which order. What follows from that alone is
//! proved for every arithmetic; what needs each operation to have a single
//! result is proved for every arithmetic that is [`arithmetic::deterministic`].
//!
//! An ensemble is three parallel arrays of one length: masses, positions and
//! velocities. A body is its index.

pub mod aggregate;
pub mod arithmetic;
pub mod batch;
pub mod law;
pub mod runner;
pub mod stepper;

pub use crate::aggregate::compute_gravitational_acceleration_many_on_one;
pub use crate::arithmetic::Arithmetic;
pub use crate::batch::compute_gravitational_acceleration_many_on_many;
pub use crate::law::compute_gravitational_acceleration_one_on_one;
pub use crate::law::GRAVITATIONAL_CONSTANT_BITS;
pub use crate::runner::run_steps;
pub use crate::stepper::integrate_bodies;
pub use crate::stepper::integrate_body;
pub use crate::stepper::leapfrog_step;
