//! Presentation logic for a heads-up overlay: what each frame shows, derived
//! from one snapshot of the telemetry that a producer publishes.
//!
//! The crate computes display content (lines of text, rows, colours, the
//! bar's segments, the font registration) and leaves window handling and
//! painting to the host.

pub mod color;
pub mod decimal;
pub mod dialog;
pub mod fonts;
pub mod info_bar;
pub mod pipeline;
pub mod snapshot;
pub mod status;
