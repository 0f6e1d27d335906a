//! Telemetry for a serial gauge display: the configuration model, the
//! wire encoding of one gauge reading, the sampler that turns provider
//! measurements into readings, the state machine that drives the serial
//! link, and the choice and labels of the ports offered for it.

pub mod config;
pub mod frame;
pub mod ports;
pub mod sampler;
pub mod telemetry;
