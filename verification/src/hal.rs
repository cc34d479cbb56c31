//! The hardware abstraction layer: caller-facing units on one side, raw
//! register values on the other.

pub mod fan_speed;
pub mod profile;
pub mod uniwill;
