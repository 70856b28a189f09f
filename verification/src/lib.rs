//! A runtime bridge between freestanding program code and the boot firmware.
//!
//! The firmware hands over one dispatch table and one execution handle at
//! entry. Everything here is the logic around that table: which request is
//! made, with which arguments, and what each reply means. Performing a
//! request needs the raw table and is left to the caller; every function
//! takes the firmware's reply as plain values and says what follows from it.
//!
//! The heap is one of the services built here, so the paths that must work
//! without it, the console and the report of a fatal condition, allocate
//! nothing.

pub mod allocator;
pub mod fatal;
pub mod firmware;
pub mod fs;
pub mod status;
pub mod stdio;
pub mod system;
pub mod text;
