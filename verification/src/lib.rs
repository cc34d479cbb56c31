//! Capability negotiation and value translation for Uniwill laptop cooling
//! and performance control, expressed over plain register values.

pub mod decimal;
pub mod error;
pub mod hal;
pub mod transport;
