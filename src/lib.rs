//! Protected-mode bring-up and interrupt dispatch for a 32-bit x86 kernel.
//!
//! Everything here is pure: the library computes descriptor encodings,
//! vector tables, controller programming sequences and handler decisions,
//! and hands them back as plain values (`PortOp`, `HandlerStep`, `InitStep`)
//! for the machine-level layer to carry out.
pub mod port;

pub mod gdt;
pub mod pic;
pub mod idt;
pub mod dispatch;
pub mod init;
