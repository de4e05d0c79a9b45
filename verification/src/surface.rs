//! Presentation surface management.
//!
//! The presentable image ring (swapchain) can become stale: the window is
//! resized, or an acquire or present call reports the surface out of date.
//! The manager tracks this as a three-state machine — `Valid`,
//! `Invalidated`, `Recreating` — together with the window extent, the
//! number of presentable images, and the framebuffers bound to them.
//! Recreation discards every stale framebuffer and builds exactly one new
//! framebuffer per presentable image, however often it is repeated.

use vstd::prelude::*;

verus! {

/// State of the presentable image ring.
#[derive(Clone, Copy, Debug, PartialEq, Eq, Structural)]
pub enum SurfaceState {
    /// The images match the window; frames may be acquired and presented.
    Valid,
    /// A resize or a stale acquire/present was observed; the ring must be
    /// rebuilt at the next frame boundary.
    Invalidated,
    /// The ring is being rebuilt right now.
    Recreating,
}

/// An event the surface state machine reacts to.
#[derive(Clone, Copy, Debug, PartialEq, Eq, Structural)]
pub enum SurfaceEvent {
    /// The window reported a new extent in pixels.
    Resize { width: u32, height: u32 },
    /// An acquire or present call reported the surface stale.
    Invalidate,
    /// Rebuilding of the image ring has started.
    BeginRecreate,
    /// Rebuilding finished; the new ring holds `image_count` images.
    FinishRecreate { image_count: usize },
}

/// Bookkeeping for the presentable image ring and its framebuffers.
pub struct SurfaceManager {
    pub state: SurfaceState,
    /// Extent the current presentable images were created with.
    pub surface_extent: (u32, u32),
    /// Latest extent reported by the window; (0, 0) while minimized.
    pub window_extent: (u32, u32),
    /// Number of images in the presentable ring.
    pub image_count: usize,
    /// Number of framebuffers currently kept alive.
    pub live_framebuffers: usize,
    /// How many times the ring has been recreated.
    pub generation: u64,
}

impl SurfaceManager {
    /// Well-formedness: a non-empty image ring of non-zero extent, with
    /// exactly one live framebuffer per presentable image.
    pub open spec fn wf(self) -> bool {
        &&& self.image_count > 0
        &&& self.live_framebuffers == self.image_count
        &&& self.surface_extent.0 > 0
        &&& self.surface_extent.1 > 0
    }

    /// The window currently has no drawable area.
    pub open spec fn zero_extent(self) -> bool {
        self.window_extent.0 == 0 || self.window_extent.1 == 0
    }

    /// Whether `event` may fire in state `self`.
    pub open spec fn enabled(self, event: SurfaceEvent) -> bool {
        match event {
            SurfaceEvent::Resize { .. } => true,
            SurfaceEvent::Invalidate => true,
            SurfaceEvent::BeginRecreate => self.state is Invalidated && !self.zero_extent(),
            SurfaceEvent::FinishRecreate { image_count } => {
                &&& self.state is Recreating
                &&& !self.zero_extent()
                &&& image_count > 0
                &&& self.generation < u64::MAX
            },
        }
    }

    /// The transition function of the state machine.
    pub open spec fn step(self, event: SurfaceEvent) -> SurfaceManager {
        match event {
            SurfaceEvent::Resize { width, height } => {
                if width > 0 && height > 0 {
                    SurfaceManager {
                        window_extent: (width, height),
                        state: if self.state is Valid {
                            SurfaceState::Invalidated
                        } else {
                            self.state
                        },
                        ..self
                    }
                } else {
                    // A zero-extent resize (minimized window) records the
                    // extent so rendering is skipped, but is no transition.
                    SurfaceManager { window_extent: (width, height), ..self }
                }
            },
            SurfaceEvent::Invalidate => {
                SurfaceManager { state: SurfaceState::Invalidated, ..self }
            },
            SurfaceEvent::BeginRecreate => {
                SurfaceManager { state: SurfaceState::Recreating, ..self }
            },
            SurfaceEvent::FinishRecreate { image_count } => {
                SurfaceManager {
                    state: SurfaceState::Valid,
                    surface_extent: self.window_extent,
                    image_count,
                    live_framebuffers: image_count,
                    generation: (self.generation + 1) as u64,
                    ..self
                }
            },
        }
    }

    /// A fresh, valid surface of the given extent and image count.
    pub fn new(width: u32, height: u32, image_count: usize) -> (m: SurfaceManager)
        requires
            width > 0,
            height > 0,
            image_count > 0,
        ensures
            m.wf(),
            m.state is Valid,
            m.surface_extent == (width, height),
            m.window_extent == (width, height),
            m.image_count == image_count,
            m.live_framebuffers == image_count,
            m.generation == 0u64,
    {
        SurfaceManager {
            state: SurfaceState::Valid,
            surface_extent: (width, height),
            window_extent: (width, height),
            image_count,
            live_framebuffers: image_count,
            generation: 0,
        }
    }

    /// Record a window resize.  A non-zero extent invalidates a valid
    /// surface; a zero extent only records that rendering must be skipped.
    pub fn notify_resize(&mut self, width: u32, height: u32)
        ensures
            *final(self) == old(self).step(SurfaceEvent::Resize { width, height }),
    {
        self.window_extent = (width, height);
        if width > 0 && height > 0 {
            if self.state == SurfaceState::Valid {
                self.state = SurfaceState::Invalidated;
            }
        }
    }

    /// Record that an acquire or present call reported the surface stale.
    pub fn invalidate(&mut self)
        ensures
            *final(self) == old(self).step(SurfaceEvent::Invalidate),
    {
        self.state = SurfaceState::Invalidated;
    }

    /// Start rebuilding the image ring.  Only an invalidated surface with a
    /// drawable window is rebuilt; a minimized window keeps the stale ring.
    pub fn begin_recreate(&mut self)
        requires
            old(self).enabled(SurfaceEvent::BeginRecreate),
        ensures
            *final(self) == old(self).step(SurfaceEvent::BeginRecreate),
    {
        self.state = SurfaceState::Recreating;
    }

    /// Finish rebuilding: the ring now holds `image_count` images at the
    /// window extent, each with exactly one fresh framebuffer; the old
    /// framebuffers are gone.
    pub fn finish_recreate(&mut self, image_count: usize)
        requires
            old(self).enabled(SurfaceEvent::FinishRecreate { image_count }),
        ensures
            *final(self) == old(self).step(SurfaceEvent::FinishRecreate { image_count }),
    {
        self.state = SurfaceState::Valid;
        self.surface_extent = self.window_extent;
        self.image_count = image_count;
        self.live_framebuffers = image_count;
        self.generation = self.generation + 1;
    }
}

/// Run a sequence of events through the state machine.
pub open spec fn run(m: SurfaceManager, events: Seq<SurfaceEvent>) -> SurfaceManager
    decreases events.len(),
{
    if events.len() == 0 {
        m
    } else {
        run(m.step(events[0]), events.skip(1))
    }
}

/// Every event of the sequence is enabled when its turn comes.
pub open spec fn run_enabled(m: SurfaceManager, events: Seq<SurfaceEvent>) -> bool
    decreases events.len(),
{
    if events.len() == 0 {
        true
    } else {
        m.enabled(events[0]) && run_enabled(m.step(events[0]), events.skip(1))
    }
}

/// One enabled step preserves well-formedness: in particular it leaves
/// exactly one live framebuffer per presentable image.
pub proof fn lemma_step_preserves_wf(m: SurfaceManager, event: SurfaceEvent)
    requires
        m.wf(),
        m.enabled(event),
    ensures
        m.step(event).wf(),
{
}

/// However many resizes, invalidations and recreations the surface goes
/// through, the framebuffers never accumulate: after any enabled event
/// sequence there is still exactly one live framebuffer per presentable
/// image.
pub proof fn lemma_run_preserves_framebuffer_balance(m: SurfaceManager, events: Seq<SurfaceEvent>)
    requires
        m.wf(),
        run_enabled(m, events),
    ensures
        run(m, events).wf(),
        run(m, events).live_framebuffers == run(m, events).image_count,
    decreases events.len(),
{
    if events.len() > 0 {
        lemma_step_preserves_wf(m, events[0]);
        lemma_run_preserves_framebuffer_balance(m.step(events[0]), events.skip(1));
    }
}

} // verus!
