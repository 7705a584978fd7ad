//! Clipboard access over a line-delimited JSON protocol.
//!
//! This library is the part of the program that decides: which native
//! selection a logical selector stands for on each clipboard subsystem,
//! what is handed to the subsystem and what its answer means, how long to
//! wait for a lock that another program holds, what a request line asks for
//! and what line answers it. It talks to no display server and reads no
//! input itself. The program around it makes each call that the library
//! describes and hands back what came of it.
//!
//! - [`clipboard`]: selectors, pasted data and errors with their causes.
//! - [`text`]: lossy decoding and the two line-ending conventions.
//! - [`linux`]: the Wayland and X11 backends and the choice between them.
//! - [`windows`]: the Windows backend and the retry policy of its lock.
//! - [`json`]: what the JSON values of the protocol hold.
//! - [`protocol`]: requests, replies and the dispatcher.
//! - [`laws`]: what holds of the backends and the protocol together.

pub mod clipboard;
pub mod json;
pub mod laws;
pub mod linux;
pub mod protocol;
pub mod text;
pub mod windows;
