//! Interrupt-driven asynchronous serial I/O for a single-core 8-bit
//! microcontroller: register primitives, completion notifier slots, the
//! receive and transmit operations, their interrupt service routines, a
//! busy-polling executor and the bracketed echo task.

pub mod echo;
pub mod executor;
pub mod fut;
pub mod initialize;
pub mod register;
pub mod runtime;
pub mod write;
