//! Interrupt vector numbering for the chained 8259 PICs.
pub mod pic;
