//! Printer discovery and capability retrieval over a print spooler that
//! reveals how much memory an answer needs only after it has been asked once.
//!
//! The native calls themselves are handed in by the caller as functions; this
//! crate owns the buffers, decides what to ask next, and decodes what comes back.

pub mod common;
pub mod windows;
