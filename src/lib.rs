//! Fixed-point motion control for wheeled mobile robots: PID, take-back-half,
//! bang-bang and feedforward control laws, a termination predicate, drivetrain
//! mixing and the move-to-point pursuit law.
//!
//! Lengths and signals are integers in the caller's units, angles are
//! millidegrees, gains are thousandths and times are milliseconds. Motions
//! are state machines: the owner of the drivetrain feeds them tracking samples
//! and performs the actions they return.

pub mod numeric;
pub mod angle;
pub mod geometry;
pub mod tolerances;
pub mod pid;
pub mod loops;
pub mod feedback;
pub mod model;
pub mod move_to_point;
