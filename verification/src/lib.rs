//! Verified decision logic of the `vpt` fixture helpers: argument checking,
//! octal mode parsing, copy planning and entry reporting. The file-system calls
//! themselves are left to the caller, which hands back what they found.
pub mod chmod;
pub mod cp;
pub mod error;
pub mod octal;
pub mod stat_file;
pub mod text;
pub mod touch_file;
