//! Interrupt-driven, non-blocking full-duplex serial transport for a
//! single-core microcontroller, together with the two ownership primitives
//! that make it safe to share a peripheral between initialization code and
//! an interrupt handler: a critical-section guarded cell and a one-time
//! ownership-transfer cell.

pub mod guard;
pub mod queue;
pub mod transfer;
pub mod uart_driver;
