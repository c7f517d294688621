//! An interactive reverse-Polish-notation calculator core.
//!
//! The library holds the verified heart of the calculator: the value stack
//! and its operations, the numeric edit buffer, the renderer that lays the
//! screen out as paint operations, and the key-dispatch state machine that
//! drives them.  A host program supplies what verified code cannot hold:
//! the terminal itself, behind the capability trait in [`platform`], and
//! the floating-point computations, whose results it hands back as 64-bit
//! IEEE-754 bit patterns.

pub mod input;
pub mod platform;
pub mod render;
pub mod repl;
pub mod session;
