//! Decode and scheduling core of a battery-management CAN telemetry bridge.
//!
//! The crate turns raw bus frames into typed telemetry records and decides,
//! tick by tick, which parameter-group requests have to be put on the bus.
//! Everything here is pure: the bus, the clock and the publish sink belong to
//! the program that drives this library.

pub mod alert;
pub mod bridge;
pub mod codec;
pub mod decoder;
pub mod frame;
pub mod record;
pub mod scheduler;
pub mod sink;
pub mod text;
