//! Core of a minimal 32-bit x86 kernel: the flat segment descriptor table and
//! the values driving the one-shot privilege transition, a spin lock guarding
//! shared hardware state, the PS/2 scancode decoder, and the VGA text console.
//!
//! Everything here is pure computation over plain values; the thin layer that
//! touches ports, memory-mapped buffers and processor registers lives outside
//! this crate and feeds bytes in and out.

pub mod console;
pub mod gdt;
pub mod keyboard;
pub mod ps2;
pub mod spinlock;
pub mod vga_color;
pub mod vga_text;
