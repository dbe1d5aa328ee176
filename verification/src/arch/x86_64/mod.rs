pub mod gdt;
pub mod interrupts;
