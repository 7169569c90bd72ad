//! What an x86_64 kernel needs before it can do anything else, with proofs:
//! checked addresses and frames, the memory map of the firmware and an
//! allocator of frames over it, the table of interrupt descriptors, the two
//! chained interrupt controllers, and the text screen.
//!
//! Nothing in this crate touches the machine. What is to be read from or
//! written to an I/O port is handed out as a value (`port::PortRead`,
//! `port::PortWrite`), tables and frames are handed out as the bytes and
//! words that lie in memory, and the code that owns the machine carries them
//! out in the order given.

pub mod address;
pub mod bytes;
pub mod frame;
pub mod layout;
pub mod allocator;
pub mod port;
pub mod pic;
pub mod segmentation;
pub mod idt;
pub mod vga_buffer;
pub mod keyboard;
pub mod context;
pub mod interrupt;
pub mod memory;
pub mod text;
pub mod cpu;
pub mod boot;
