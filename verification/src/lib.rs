//! Verified core of a small desktop shell that embeds a web page inside a
//! native application window.
//!
//! The library holds the shell's logic: the geometry of the embedded view
//! below a custom titlebar, and the decisions behind view/window creation,
//! reuse and resize synchronization. The host toolkit calls themselves
//! (window creation, focus, the event loop) live outside the library; they
//! hand in plain values (sizes, scale factors, existence flags) and carry
//! the planned actions out.

pub mod constants;
pub mod errors;
pub mod geometry;
pub mod lifecycle;
