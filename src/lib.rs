//! A CHIP-8 virtual machine: decoder, CPU state, framebuffer, keypad,
//! instruction execution with the COSMAC / CHIP-48 / SUPER-CHIP quirks, and
//! the decisions of the clocks and the message bus that drive it.
pub mod chip8;
pub mod cpu;
pub mod decoder;
pub mod hardware;
pub mod input;
pub mod primitive;
pub mod scheduler;
pub mod screen;
pub mod text;
