//! The options of a run and the mode they select.

use vstd::prelude::*;

verus! {

/// What the user asked for.
#[derive(Debug)]
pub struct Args {
    /// Path to the video file to play.
    pub video_path: String,
    /// Target rate in frames per second; zero plays as fast as frames come.
    pub target_fps: u32,
    /// Show the video in a window.
    pub gui: bool,
    /// Use the plain window in place of the one with controls.
    pub sdl: bool,
    /// Where to write the session's account.
    pub export_metrics: Option<String>,
    /// Log in detail.
    pub verbose: bool,
    /// Decode as fast as possible and show nothing.
    pub benchmark: bool,
}

/// How the player runs.
#[derive(Clone, Copy, Debug, PartialEq, Eq, Structural)]
pub enum RunMode {
    /// No window, no pacing: frames are decoded and measured.
    Benchmark,
    /// The plain window.
    SdlGui,
    /// The window with controls.
    Gui,
    /// No window; frames are paced and progress is printed.
    Cli,
}

impl Args {
    /// A benchmark takes precedence over a window, and among windows the
    /// plain one is used where it was asked for. Without either the player
    /// runs in the terminal.
    pub open spec fn spec_mode(&self) -> RunMode {
        if self.benchmark {
            RunMode::Benchmark
        } else if self.gui {
            if self.sdl {
                RunMode::SdlGui
            } else {
                RunMode::Gui
            }
        } else {
            RunMode::Cli
        }
    }

    /// The mode that these options select.
    pub fn mode(&self) -> (mode: RunMode)
        ensures
            mode == self.spec_mode(),
    {
        if self.benchmark {
            RunMode::Benchmark
        } else if self.gui {
            if self.sdl {
                RunMode::SdlGui
            } else {
                RunMode::Gui
            }
        } else {
            RunMode::Cli
        }
    }

    /// Whether the account is written when playback ends: in the modes
    /// without a window, where a path was given. A window exports on demand.
    pub fn exports_on_exit(&self) -> (export: bool)
        ensures
            export == (self.export_metrics.is_some() && (self.spec_mode() == RunMode::Benchmark
                || self.spec_mode() == RunMode::Cli)),
    {
        match self.mode() {
            RunMode::Benchmark | RunMode::Cli => self.export_metrics.is_some(),
            _ => false,
        }
    }
}

} // verus!
