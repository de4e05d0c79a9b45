//! Frame orchestration core for a small GPU engine.
//!
//! The library models the decisions a render loop has to make — compute
//! dispatch sizing, presentation-surface recreation, frame pacing — as
//! verified state machines over plain values.  The device, window and
//! event-loop plumbing that carries these decisions out lives outside the
//! library.

use vstd::prelude::*;

pub mod context;
pub mod dispatch;
pub mod scheduler;
pub mod surface;

verus! {

/// Engine configuration, read once at startup and immutable afterwards.
pub struct EngineSettings {
    pub window_title: String,
    /// Initial window size in pixels (width, height).
    pub size: (u32, u32),
    /// Minimum window size in pixels, if one is enforced.
    pub min_size: Option<(u32, u32)>,
    /// Target frames per second for the scheduler's pacing.
    pub fps_limit: u32,
}

impl EngineSettings {
    /// Default configuration: 1280x720 window, 640x360 minimum, 120 fps.
    pub fn new(title: String) -> (s: EngineSettings)
        ensures
            s.window_title@ == title@,
            s.size == (1280u32, 720u32),
            s.min_size == Some((640u32, 360u32)),
            s.fps_limit == 120u32,
    {
        EngineSettings {
            window_title: title,
            size: (1280, 720),
            min_size: Some((640, 360)),
            fps_limit: 120,
        }
    }
}

} // verus!
