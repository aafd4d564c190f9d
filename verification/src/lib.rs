//! Control flow of a bare-metal boot stub.
//!
//! The stub has two components. The entry point takes control from the boot
//! loader, does no work and idles forever. The panic handler takes control
//! when the environment reports an unrecoverable fault, discards the
//! diagnostics it is handed and spins forever. Neither ever gives control
//! back.
//!
//! [`model`] describes where the processor is and how it moves; [`laws`]
//! proves that it settles in one of the two loops and stays there.

pub mod laws;
pub mod model;
