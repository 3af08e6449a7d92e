//! Early bring-up support for a RISC-V kernel: the compiler of the build
//! configuration into the kernel's constants, and the semihosting transport
//! that writes diagnostic text to an attached host debug monitor.

pub mod config;
pub mod semihosting;
