//! Interrupt-handling core of a small kernel: descriptors whose byte
//! layout the CPU itself parses, the fixed table of them, the classification
//! of incoming events into fault, device, and unrecognized paths, and the
//! configure-then-activate lifecycle of the one global table. The kernel's
//! nullable-link utility lives here as well.

pub mod context;
pub mod gate;
pub mod idt;
pub mod kernel;
pub mod rawlink;
