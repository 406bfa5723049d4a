//! A byte-stream filter that rewrites ANSI color sequences so that the
//! colors shown approximate a chosen color-vision deficiency.
//!
//! Codes 39 and 49 (default foreground and background) are a choice of the
//! caller: `rewrite::DefaultReset` either expands them to the recolored
//! defaults, as code 0 is expanded, or passes them through.

pub mod color;
pub mod profile;
pub mod sgr;
pub mod rewrite;
pub mod emit;
pub mod scanner;
pub mod lemmas;
