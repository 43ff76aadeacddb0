//! The trap-handling core of a freestanding x86_64 kernel: interrupt vector
//! numbering, the layout of the interrupt descriptor table, the decisions of
//! the exception and hardware-interrupt handlers, and the pixel writers of
//! the display surface.

pub mod boot;
pub mod display;
pub mod fault;
pub mod idt;
pub mod irq;
pub mod keyboard;
pub mod render;
