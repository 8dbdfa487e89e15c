//! The export engine of a timeline video editor.
//!
//! A timeline is a list of clips: trimmed, retimed pieces of source media
//! placed on tracks. This crate turns a timeline and an export
//! configuration into the runs of the transcoding program that render it,
//! and decides everything around those runs: which clips are fit for
//! export, in which order they come, where the gaps are, what the output
//! should look like, how far the export has come and what went wrong.
//!
//! The crate touches neither files nor processes. The host hands it what it
//! found and carries out what the crate asks for.
//!
//! All quantities are whole numbers: times in microseconds, speeds and
//! frame rates in millionths, progress in millionths of a percent.

pub mod diagnostics;
pub mod export;
pub mod locations;
pub mod media;
pub mod model;
pub mod numbers;
pub mod output;
pub mod outside;
pub mod planner;
pub mod prerender;
pub mod probe;
pub mod recording;
pub mod sequential;
pub mod single_pass;
pub mod stream;
pub mod tempo;
pub mod text;
pub mod timeline;
pub mod tools;
pub mod validate;
