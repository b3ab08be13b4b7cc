//! Turns a web page address into the plan of a small desktop application:
//! the address is validated, a project tree is laid out for it, a preview
//! window is described and the packaging command is prepared. The library
//! decides and computes; whoever drives it touches the disk, the window
//! system and the packaging toolchain.

pub mod address;
pub mod error;
pub mod file_tree;
pub mod json;
pub mod naming;
pub mod package;
pub mod scaffold;
pub mod templates;
pub mod text;
pub mod window;
pub mod workflow;
