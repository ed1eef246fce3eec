//! Announces the time at fixed sub-hour intervals.
//!
//! The library covers the decision logic of the announcer: mapping an
//! interval to the canonical set of per-day announcement slots, naming and
//! validating the pre-generated audio files, planning the batched synthesis
//! of those files, and deciding at each scheduled tick which file to play
//! and whether to skip it while the user is idle.  The surrounding process
//! (HTTP requests to the synthesis service, the filesystem, audio output,
//! the tray icon) supplies values to these functions and carries out the
//! actions they return.

pub mod archive;
pub mod batch;
pub mod catalog;
pub mod config;
pub mod digits;
pub mod endpoints;
pub mod errors;
pub mod filenames;
pub mod idle;
pub mod pipeline;
pub mod slots;
pub mod speakers;
pub mod text;
pub mod tick;
pub mod tray;
pub mod version;
