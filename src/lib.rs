//! Control library for one managed game-server process: artifact resolution,
//! download verification and the process slot state machine.
pub mod digest;
pub mod text;
pub mod resolver;
pub mod pipeline;
pub mod lifecycle;
