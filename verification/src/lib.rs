//! A boundary layer in front of a content-addressed cache of compiled modules.
//!
//! Callers on the far side of the boundary hold an opaque handle, pass byte
//! buffers in and out, and learn of failures through one error channel. The
//! engine that compiles and stores modules is an outside collaborator.

pub mod args;
pub mod cache;
pub mod engine;
pub mod error;
pub mod laws;
pub mod memory;
pub mod options;
pub mod text;
