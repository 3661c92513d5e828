//! Frame production and playback telemetry for a video player.
//!
//! The crate holds the decisions of a player and none of its devices: how a
//! decoded picture becomes a tightly packed RGB buffer, in which order the
//! decoder is fed and drained, when the next frame is due, and what the
//! session's statistics are. Every quantity is an integer or an exact
//! fraction of integers, so that each contract says precisely what is
//! computed.

pub mod cli;
pub mod clock;
pub mod display;
pub mod metrics;
pub mod pacing;
pub mod pixel;
pub mod ratio;
pub mod stream;
pub mod video_player;

pub use crate::cli::Args;
