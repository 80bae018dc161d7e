//! Detection of the color capability of terminal output streams.
//!
//! The crate resolves a single [`colors::ColorSupportLevel`] for a stream from
//! command-line flags, the `FORCE_COLOR` environment variable, whether the
//! stream is an interactive terminal, and terminal/operating-system
//! signatures. Every rule is a pure function over an explicit snapshot of
//! those signals, so resolutions are deterministic and testable.

pub mod colors;
pub mod environment;
pub mod options;
pub mod strutil;

pub use colors::ColorSupport;
