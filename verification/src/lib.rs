//! Backend logic of a small desktop application shell.
//!
//! The shell offers its front end one request, a greeting built from a name,
//! and declares which capabilities the host runtime must grant before the
//! event loop starts. Both are plain values here; the windowed runtime that
//! serves them lives outside this library.

pub mod greeting;
pub mod startup;
