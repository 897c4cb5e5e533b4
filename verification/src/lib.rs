//! Host-side driver logic for the Pololu Micro Maestro servo controller.
//!
//! The crate holds the protocol session layer: the byte-exact encoding of each
//! command, the decoding of the board's two-byte responses, the session state
//! machine and the error taxonomy. It performs no I/O itself. Every command
//! hands back the frame that has to go over the serial link, and the outcome
//! that the link reports is handed in again, so that each decision of the
//! driver is a function from plain values to plain values.

pub mod constants;
pub mod errors;
pub mod maestro;
pub mod utils;
