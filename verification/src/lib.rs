//! The memory-mapped I/O register file of a Game Boy-class machine: a closed
//! table of hardware registers and a store that keeps one byte for each.
//!
//! [`reg`] names the registers and converts between a register and its bus
//! address; [`mmio`] holds the bytes. Two registers, the joypad and the
//! serial data register, stand for inputs from outside the machine. Nothing
//! feeds them here: they are stored like the rest, and
//! [`Mmio::read_with_notice`] tells the caller when a read wanted such an
//! input, so that the caller can say so.

pub mod mmio;
pub mod reg;

pub use mmio::Mmio;
pub use reg::HwReg;
pub use reg::InputSource;
pub use reg::UnknownAddress;
