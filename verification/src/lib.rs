//! Verified core of a small RISC-V boot kernel: a page-granular physical
//! memory allocator, typed access to PCI configuration space with BAR
//! sizing, and bring-up of a VGA-compatible display (legacy register
//! files, Bochs DISPI extension, palette and linear framebuffer).
//!
//! Hardware registers are held as explicit state so that every register
//! write, every protocol step and every invariant is checked; the thin
//! MMIO layer that moves this state to and from a real device lives
//! outside the library.

pub mod palloc;
pub mod pci;
pub mod vga;
pub mod display;
pub mod uart;
pub mod console;
pub mod thread;
