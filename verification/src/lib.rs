//! A library that evolves populations of procedurally generated articulated
//! creatures — graphs of point masses connected by actuated linkages — to
//! maximize horizontal locomotion distance.
//!
//! All geometry is carried in fixed-point integers: 1000 units equal one
//! world unit, so positions, sizes and lengths are exact values that every
//! contract can speak about. A physics backend drives the bodies; the
//! library owns the creature model, the movement schedules, the per-tick
//! actuation targets, the scoring and the generational selection.

pub mod creature;
pub mod evolver;
pub mod ids;
pub mod random;
pub mod simulation;
pub mod util;
