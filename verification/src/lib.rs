//! Motion sequencing for a cyclic robot-control pipeline.
//!
//! A motion is an ordered series of time-parameterized interpolation
//! segments, each gated by optional entry and exit conditions and
//! interruptible by continuously monitored conditions. Once per control
//! cycle the caller supplies an elapsed time step and a snapshot of
//! condition inputs; the machine advances, holds, or aborts its progress
//! and reports the commanded position for that instant.

pub mod condition;
pub mod laws;
pub mod motion_interpolator;
pub mod timed_spline;
