//! Kinematics engine: the decision logic of a small kinematic solver service,
//! with its contracts proved by Verus.
pub mod chains;
pub mod geometry;
pub mod ik;
pub mod intent;
pub mod stats;
