//! Kernel support library: the VGA text console, page-granular memory
//! bookkeeping, interrupt vector numbering and log-line formatting.
pub mod arch;
pub mod framebuffer;
pub mod logging;
pub mod memory;
pub mod serial;
pub mod vga;
