//! Core of a freestanding kernel image: an interrupt vector table model, an
//! interrupt controller bridge, a four-level page-table address translator,
//! and a text console driver.
//!
//! The modules here hold the decision logic and its proofs; the thin layer
//! that touches processor registers, I/O ports and device memory lives in the
//! surrounding binary and hands plain values in and out.

pub mod interrupts;
pub mod memory;
pub mod vga_buffer;
