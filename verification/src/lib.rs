//! Board-support logic for a small RISC-V development board, centred on the
//! LED shell: a line-oriented command interpreter driven over a serial
//! transport.
//!
//! The crate models the three on-board LED channels as boolean device
//! handles (`led`), and verifies the command dispatcher (`env`), the line
//! editor with its history ring (`shell`, `history`), the newline
//! expansion of the serial standard output (`stdout`), and the SD-card
//! configuration stubs (`sdcard`). Transport I/O and pin wiring live
//! outside the library: the polling loop hands bytes in and writes the
//! returned text back out.

pub mod env;
pub mod history;
pub mod led;
pub mod sdcard;
pub mod shell;
pub mod stdout;
pub mod text;
