//! An interactive execution controller and debugger front-end for the
//! Manchester Baby, a fixed-size register machine with 32 words of memory,
//! an accumulator, an instruction register and an instruction-address
//! register.  The emulation itself is done by the `baby_emulator` crate;
//! this library drives it one instruction cycle at a time, decides when to
//! suspend automatic execution in favour of an interactive debug session,
//! and implements the command language for inspecting and mutating the
//! machine state and the session configuration.

/// Startup configuration types: which file to run, what to output, where
/// to break.
pub mod args;
/// Functionality for assembling a source file into a binary image.
pub mod assemble;
/// Errors reported while the program runs.
pub mod errors;
/// The grammar of numeric literals: prefixed hexadecimal, octal, binary
/// and decimal tokens, and their values.
pub mod literals;
/// The interface through which the library talks to the user and the
/// host system.
pub mod interface;
/// The model of the machine, and the trusted bridge to the emulation and
/// assembler services of the `baby_emulator` crate.
pub mod machine;
/// Insertion-ordered sets kept in vectors: unique membership, insertion
/// order preserved for display.
pub mod sets;
/// Rendering of words, register values and addresses as the debugger
/// prints them.
pub mod render;
/// Functionality for loading, running and debugging a program.
pub mod run;
/// Verified helpers for working with text as sequences of characters.
pub mod text;
