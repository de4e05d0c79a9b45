//! The frame scheduler.
//!
//! One tick turns a "render one frame" request into an ordered sequence of
//! decisions: skip while the window has no drawable area, rebuild the
//! presentable ring when it is stale, acquire an image (retrying once after
//! an out-of-date acquire), record the compute and composite submissions,
//! present, and finally pace the next tick to the target frame rate.
//!
//! The scheduler is a state machine over plain values.  The caller performs
//! the device work each decision calls for — the actual acquire, the
//! submissions, the present, the clock reads — and feeds the outcomes back
//! in; every decision and every piece of bookkeeping here is verified.

use vstd::prelude::*;

use crate::dispatch::group_count;
use crate::dispatch::dispatch_grid;
use crate::surface::SurfaceEvent;
use crate::surface::SurfaceManager;
use crate::surface::SurfaceState;

verus! {

/// What a tick does first.
#[derive(Clone, Copy, Debug, PartialEq, Eq, Structural)]
pub enum TickStart {
    /// The window has no drawable area: touch nothing on the device and go
    /// straight to pacing.
    SkipZeroExtent,
    /// The presentable ring is stale: rebuild it, then acquire.
    RecreateFirst,
    /// The surface is valid: acquire an image.
    Acquire,
}

/// What the presentation layer reported for an acquire call.
#[derive(Clone, Copy, Debug, PartialEq, Eq, Structural)]
pub enum AcquireOutcome {
    /// An image was acquired.  `suboptimal` marks a surface that still
    /// works but no longer matches the window exactly.
    Success { image_index: usize, suboptimal: bool },
    /// The surface is stale; no image was acquired.
    OutOfDate,
    /// The device is gone; no recovery is attempted.
    DeviceLost,
}

/// The scheduler's answer to an acquire outcome.
#[derive(Clone, Copy, Debug, PartialEq, Eq, Structural)]
pub enum AcquireDecision {
    /// Render into the acquired image.
    Proceed { image_index: usize },
    /// Rebuild the presentable ring, then acquire once more.
    RecreateAndRetry,
    /// The retry failed too: give this tick up, render nothing.
    SkipTick,
    /// The device is lost; the process should terminate.
    Fatal,
}

/// What the presentation layer reported for a present call.
#[derive(Clone, Copy, Debug, PartialEq, Eq, Structural)]
pub enum PresentOutcome {
    /// The frame was queued for presentation.
    Presented,
    /// The surface went stale; the ring must be rebuilt before the next
    /// frame.
    OutOfDate,
    /// The frame was presented, but the surface should be rebuilt soon.
    Suboptimal,
    /// The device is gone; no recovery is attempted.
    DeviceLost,
}

/// Where within a tick the scheduler stands.
#[derive(Clone, Copy, Debug, PartialEq, Eq, Structural)]
pub enum TickPhase {
    /// Between ticks.
    Ready,
    /// Waiting for an acquire outcome; `retried` is set after the one
    /// permitted retry.
    Acquiring { retried: bool },
    /// An image is held; the compute pass is next.
    Compute { image_index: usize },
    /// The compute pass is submitted; the composite pass is next.
    Composite { image_index: usize },
    /// Both passes are submitted; the present call is next.
    Presenting { image_index: usize },
    /// The frame is done or was skipped; pacing is next.
    Pacing,
}

/// An event the scheduler state machine reacts to.
#[derive(Clone, Copy, Debug, PartialEq, Eq, Structural)]
pub enum SchedulerEvent {
    BeginTick,
    Resize { width: u32, height: u32 },
    BeginRecreate,
    FinishRecreate { image_count: usize },
    Acquired { outcome: AcquireOutcome },
    ComputeSubmitted,
    CompositeSubmitted,
    PresentReturned { present_outcome: PresentOutcome },
    EndTick { elapsed_nanos: u64 },
    FramesRetired { completed: usize },
}

/// Nanoseconds of one frame at `fps` frames per second.
pub open spec fn frame_interval_nanos(fps: u32) -> int {
    1_000_000_000int / (fps as int)
}

/// Pacing rule: wait out the rest of the frame interval, never a negative
/// time, never a busy spin past the deadline.
pub open spec fn wait_nanos(target_frame_nanos: u64, elapsed_nanos: u64) -> int {
    if elapsed_nanos >= target_frame_nanos {
        0
    } else {
        target_frame_nanos - elapsed_nanos
    }
}

/// Drives the per-frame cadence and owns the surface bookkeeping.
pub struct FrameScheduler {
    pub surface: SurfaceManager,
    /// Frame interval the scheduler paces to, in nanoseconds.
    pub target_frame_nanos: u64,
    pub phase: TickPhase,
    /// Frame futures submitted and not yet observed complete.
    pub in_flight: usize,
    /// Cap on `in_flight`, bounding device-resource growth.
    pub max_in_flight: usize,
    /// Compute and composite submissions made over the scheduler's life.
    pub gpu_submissions: u64,
    /// Present calls completed over the scheduler's life.
    pub frames_presented: u64,
    /// Ticks finished, skipped ones included.
    pub ticks_completed: u64,
    /// Set when the device is lost; the scheduler then stops.
    pub fatal: bool,
}

impl FrameScheduler {
    /// Well-formedness, preserved by every scheduler function.
    pub open spec fn wf(self) -> bool {
        &&& self.surface.wf()
        &&& self.target_frame_nanos > 0
        &&& self.max_in_flight >= 1
        &&& self.in_flight <= self.max_in_flight
        &&& !(self.phase is Acquiring) ==> !(self.surface.state is Recreating)
        &&& (self.phase matches TickPhase::Compute { image_index }
            ==> image_index < self.surface.image_count)
        &&& (self.phase matches TickPhase::Composite { image_index }
            ==> image_index < self.surface.image_count)
        &&& (self.phase matches TickPhase::Presenting { image_index }
            ==> image_index < self.surface.image_count)
    }

    /// Whether `event` may fire in state `self`.
    pub open spec fn enabled(self, event: SchedulerEvent) -> bool {
        match event {
            SchedulerEvent::BeginTick => {
                &&& self.phase is Ready
                &&& !self.fatal
            },
            SchedulerEvent::Resize { .. } => true,
            SchedulerEvent::BeginRecreate => {
                &&& self.phase is Acquiring
                &&& self.surface.enabled(SurfaceEvent::BeginRecreate)
            },
            SchedulerEvent::FinishRecreate { image_count } => {
                &&& self.phase is Acquiring
                &&& self.surface.enabled(SurfaceEvent::FinishRecreate { image_count })
            },
            SchedulerEvent::Acquired { outcome } => {
                &&& self.phase is Acquiring
                &&& self.surface.state is Valid
                &&& (outcome matches AcquireOutcome::Success { image_index, .. }
                    ==> image_index < self.surface.image_count)
            },
            SchedulerEvent::ComputeSubmitted => {
                &&& self.phase is Compute
                &&& self.gpu_submissions < u64::MAX
            },
            SchedulerEvent::CompositeSubmitted => {
                &&& self.phase is Composite
                &&& self.gpu_submissions < u64::MAX
            },
            SchedulerEvent::PresentReturned { .. } => {
                &&& self.phase is Presenting
                &&& self.in_flight < self.max_in_flight
                &&& self.frames_presented < u64::MAX
            },
            SchedulerEvent::EndTick { .. } => {
                &&& self.phase is Pacing
                &&& self.ticks_completed < u64::MAX
            },
            SchedulerEvent::FramesRetired { completed } => completed <= self.in_flight,
        }
    }

    /// The transition function of the scheduler state machine.
    pub open spec fn step(self, event: SchedulerEvent) -> FrameScheduler {
        match event {
            SchedulerEvent::BeginTick => {
                if self.surface.zero_extent() {
                    FrameScheduler { phase: TickPhase::Pacing, ..self }
                } else {
                    FrameScheduler { phase: TickPhase::Acquiring { retried: false }, ..self }
                }
            },
            SchedulerEvent::Resize { width, height } => {
                FrameScheduler {
                    surface: self.surface.step(SurfaceEvent::Resize { width, height }),
                    ..self
                }
            },
            SchedulerEvent::BeginRecreate => {
                FrameScheduler {
                    surface: self.surface.step(SurfaceEvent::BeginRecreate),
                    ..self
                }
            },
            SchedulerEvent::FinishRecreate { image_count } => {
                FrameScheduler {
                    surface: self.surface.step(SurfaceEvent::FinishRecreate { image_count }),
                    ..self
                }
            },
            SchedulerEvent::Acquired { outcome } => {
                match outcome {
                    AcquireOutcome::Success { image_index, suboptimal } => {
                        FrameScheduler {
                            phase: TickPhase::Compute { image_index },
                            surface: if suboptimal {
                                // Render this frame anyway; rebuild the ring
                                // before the next one.
                                self.surface.step(SurfaceEvent::Invalidate)
                            } else {
                                self.surface
                            },
                            ..self
                        }
                    },
                    AcquireOutcome::OutOfDate => {
                        if self.phase matches TickPhase::Acquiring { retried } && retried {
                            FrameScheduler {
                                phase: TickPhase::Pacing,
                                surface: self.surface.step(SurfaceEvent::Invalidate),
                                ..self
                            }
                        } else {
                            FrameScheduler {
                                phase: TickPhase::Acquiring { retried: true },
                                surface: self.surface.step(SurfaceEvent::Invalidate),
                                ..self
                            }
                        }
                    },
                    AcquireOutcome::DeviceLost => {
                        FrameScheduler { phase: TickPhase::Pacing, fatal: true, ..self }
                    },
                }
            },
            SchedulerEvent::ComputeSubmitted => {
                match self.phase {
                    TickPhase::Compute { image_index } => FrameScheduler {
                        phase: TickPhase::Composite { image_index },
                        gpu_submissions: (self.gpu_submissions + 1) as u64,
                        ..self
                    },
                    _ => self,
                }
            },
            SchedulerEvent::CompositeSubmitted => {
                match self.phase {
                    TickPhase::Composite { image_index } => FrameScheduler {
                        phase: TickPhase::Presenting { image_index },
                        gpu_submissions: (self.gpu_submissions + 1) as u64,
                        ..self
                    },
                    _ => self,
                }
            },
            SchedulerEvent::PresentReturned { present_outcome } => {
                match present_outcome {
                    PresentOutcome::Presented => {
                        FrameScheduler {
                            phase: TickPhase::Pacing,
                            in_flight: (self.in_flight + 1) as usize,
                            frames_presented: (self.frames_presented + 1) as u64,
                            ..self
                        }
                    },
                    PresentOutcome::OutOfDate | PresentOutcome::Suboptimal => {
                        FrameScheduler {
                            phase: TickPhase::Pacing,
                            in_flight: (self.in_flight + 1) as usize,
                            frames_presented: (self.frames_presented + 1) as u64,
                            surface: self.surface.step(SurfaceEvent::Invalidate),
                            ..self
                        }
                    },
                    PresentOutcome::DeviceLost => {
                        FrameScheduler { phase: TickPhase::Pacing, fatal: true, ..self }
                    },
                }
            },
            SchedulerEvent::EndTick { .. } => {
                FrameScheduler {
                    phase: TickPhase::Ready,
                    ticks_completed: (self.ticks_completed + 1) as u64,
                    ..self
                }
            },
            SchedulerEvent::FramesRetired { completed } => {
                FrameScheduler { in_flight: (self.in_flight - completed) as usize, ..self }
            },
        }
    }

    /// The decision `begin_tick` hands back.
    pub open spec fn begin_tick_decision(self) -> TickStart {
        if self.surface.zero_extent() {
            TickStart::SkipZeroExtent
        } else if !(self.surface.state is Valid) {
            TickStart::RecreateFirst
        } else {
            TickStart::Acquire
        }
    }

    /// The decision `on_acquire` hands back.
    pub open spec fn acquire_decision(self, outcome: AcquireOutcome) -> AcquireDecision {
        match outcome {
            AcquireOutcome::Success { image_index, .. } => {
                AcquireDecision::Proceed { image_index }
            },
            AcquireOutcome::OutOfDate => {
                if self.phase matches TickPhase::Acquiring { retried } && retried {
                    AcquireDecision::SkipTick
                } else {
                    AcquireDecision::RecreateAndRetry
                }
            },
            AcquireOutcome::DeviceLost => AcquireDecision::Fatal,
        }
    }

    /// A scheduler for a fresh surface, pacing to `fps_limit`.
    pub fn new(
        fps_limit: u32,
        width: u32,
        height: u32,
        image_count: usize,
        max_in_flight: usize,
    ) -> (s: FrameScheduler)
        requires
            0 < fps_limit <= 1_000_000_000,
            width > 0,
            height > 0,
            image_count > 0,
            max_in_flight >= 1,
        ensures
            s.wf(),
            s.surface.state is Valid,
            s.surface.surface_extent == (width, height),
            s.surface.window_extent == (width, height),
            s.surface.image_count == image_count,
            s.surface.generation == 0u64,
            s.target_frame_nanos == frame_interval_nanos(fps_limit),
            s.phase is Ready,
            s.in_flight == 0,
            s.max_in_flight == max_in_flight,
            s.gpu_submissions == 0,
            s.frames_presented == 0,
            s.ticks_completed == 0,
            !s.fatal,
    {
        proof {
            vstd::arithmetic::div_mod::lemma_div_non_zero(1_000_000_000int, fps_limit as int);
        }
        FrameScheduler {
            surface: SurfaceManager::new(width, height, image_count),
            target_frame_nanos: 1_000_000_000u64 / (fps_limit as u64),
            phase: TickPhase::Ready,
            in_flight: 0,
            max_in_flight,
            gpu_submissions: 0,
            frames_presented: 0,
            ticks_completed: 0,
            fatal: false,
        }
    }

    /// Start a tick.  A zero-extent window skips every device interaction;
    /// a stale surface is rebuilt before acquiring; otherwise acquire.
    pub fn begin_tick(&mut self) -> (d: TickStart)
        requires
            old(self).wf(),
            old(self).enabled(SchedulerEvent::BeginTick),
        ensures
            final(self).wf(),
            *final(self) == old(self).step(SchedulerEvent::BeginTick),
            d == old(self).begin_tick_decision(),
    {
        if self.surface.window_extent.0 == 0 || self.surface.window_extent.1 == 0 {
            self.phase = TickPhase::Pacing;
            TickStart::SkipZeroExtent
        } else {
            let stale = match self.surface.state {
                SurfaceState::Valid => false,
                _ => true,
            };
            self.phase = TickPhase::Acquiring { retried: false };
            if stale {
                TickStart::RecreateFirst
            } else {
                TickStart::Acquire
            }
        }
    }

    /// Record a window resize (see `SurfaceManager::notify_resize`).
    pub fn notify_resize(&mut self, width: u32, height: u32)
        requires
            old(self).wf(),
        ensures
            final(self).wf(),
            *final(self) == old(self).step(SchedulerEvent::Resize { width, height }),
    {
        self.surface.notify_resize(width, height);
    }

    /// Start rebuilding the presentable ring for this tick.
    pub fn begin_recreate(&mut self)
        requires
            old(self).wf(),
            old(self).enabled(SchedulerEvent::BeginRecreate),
        ensures
            final(self).wf(),
            *final(self) == old(self).step(SchedulerEvent::BeginRecreate),
    {
        self.surface.begin_recreate();
    }

    /// Record that the ring was rebuilt with `image_count` images.
    pub fn finish_recreate(&mut self, image_count: usize)
        requires
            old(self).wf(),
            old(self).enabled(SchedulerEvent::FinishRecreate { image_count }),
        ensures
            final(self).wf(),
            *final(self) == old(self).step(SchedulerEvent::FinishRecreate { image_count }),
    {
        self.surface.finish_recreate(image_count);
    }

    /// React to an acquire outcome.  A suboptimal acquire still renders
    /// this frame but invalidates the surface for the next; an out-of-date
    /// acquire is retried once after recreation, then the tick is skipped;
    /// a lost device is fatal.
    pub fn on_acquire(&mut self, outcome: AcquireOutcome) -> (d: AcquireDecision)
        requires
            old(self).wf(),
            old(self).enabled(SchedulerEvent::Acquired { outcome }),
        ensures
            final(self).wf(),
            *final(self) == old(self).step(SchedulerEvent::Acquired { outcome }),
            d == old(self).acquire_decision(outcome),
    {
        match outcome {
            AcquireOutcome::Success { image_index, suboptimal } => {
                self.phase = TickPhase::Compute { image_index };
                if suboptimal {
                    self.surface.invalidate();
                }
                AcquireDecision::Proceed { image_index }
            },
            AcquireOutcome::OutOfDate => {
                let was_retry = match self.phase {
                    TickPhase::Acquiring { retried } => retried,
                    _ => false,
                };
                self.surface.invalidate();
                if was_retry {
                    self.phase = TickPhase::Pacing;
                    AcquireDecision::SkipTick
                } else {
                    self.phase = TickPhase::Acquiring { retried: true };
                    AcquireDecision::RecreateAndRetry
                }
            },
            AcquireOutcome::DeviceLost => {
                self.phase = TickPhase::Pacing;
                self.fatal = true;
                AcquireDecision::Fatal
            },
        }
    }

    /// Record the compute submission and hand back its dispatch grid,
    /// sized to the current target-image extent.
    pub fn record_compute(&mut self) -> (grid: (u32, u32, u32))
        requires
            old(self).wf(),
            old(self).enabled(SchedulerEvent::ComputeSubmitted),
        ensures
            final(self).wf(),
            *final(self) == old(self).step(SchedulerEvent::ComputeSubmitted),
            grid.0 == group_count(old(self).surface.surface_extent.0 as int),
            grid.1 == group_count(old(self).surface.surface_extent.1 as int),
            grid.2 == 1u32,
    {
        let image_index = match self.phase {
            TickPhase::Compute { image_index } => image_index,
            _ => 0,
        };
        self.phase = TickPhase::Composite { image_index };
        self.gpu_submissions = self.gpu_submissions + 1;
        dispatch_grid(self.surface.surface_extent.0, self.surface.surface_extent.1)
    }

    /// Record the composite submission; the present call is next.
    pub fn record_composite(&mut self)
        requires
            old(self).wf(),
            old(self).enabled(SchedulerEvent::CompositeSubmitted),
        ensures
            final(self).wf(),
            *final(self) == old(self).step(SchedulerEvent::CompositeSubmitted),
    {
        let image_index = match self.phase {
            TickPhase::Composite { image_index } => image_index,
            _ => 0,
        };
        self.phase = TickPhase::Presenting { image_index };
        self.gpu_submissions = self.gpu_submissions + 1;
    }

    /// React to a present outcome.  A stale or suboptimal present still
    /// counts as a completed present call, but invalidates the surface for
    /// the next tick; a lost device is fatal.
    pub fn on_present(&mut self, outcome: PresentOutcome)
        requires
            old(self).wf(),
            old(self).enabled(SchedulerEvent::PresentReturned { present_outcome: outcome }),
        ensures
            final(self).wf(),
            *final(self) == old(self).step(SchedulerEvent::PresentReturned { present_outcome: outcome }),
    {
        self.phase = TickPhase::Pacing;
        match outcome {
            PresentOutcome::Presented => {
                self.in_flight = self.in_flight + 1;
                self.frames_presented = self.frames_presented + 1;
            },
            PresentOutcome::OutOfDate | PresentOutcome::Suboptimal => {
                self.in_flight = self.in_flight + 1;
                self.frames_presented = self.frames_presented + 1;
                self.surface.invalidate();
            },
            PresentOutcome::DeviceLost => {
                self.fatal = true;
            },
        }
    }

    /// Finish the tick and hand back how long to wait before the next one:
    /// the rest of the frame interval, floored at zero.
    pub fn end_tick(&mut self, elapsed_nanos: u64) -> (wait: u64)
        requires
            old(self).wf(),
            old(self).enabled(SchedulerEvent::EndTick { elapsed_nanos }),
        ensures
            final(self).wf(),
            *final(self) == old(self).step(SchedulerEvent::EndTick { elapsed_nanos }),
            wait == wait_nanos(old(self).target_frame_nanos, elapsed_nanos),
    {
        self.phase = TickPhase::Ready;
        self.ticks_completed = self.ticks_completed + 1;
        if elapsed_nanos >= self.target_frame_nanos {
            0
        } else {
            self.target_frame_nanos - elapsed_nanos
        }
    }

    /// Record that `completed` in-flight frame futures were observed
    /// complete and their resources released.
    pub fn retire_frames(&mut self, completed: usize)
        requires
            old(self).wf(),
            old(self).enabled(SchedulerEvent::FramesRetired { completed }),
        ensures
            final(self).wf(),
            *final(self) == old(self).step(SchedulerEvent::FramesRetired { completed }),
    {
        self.in_flight = self.in_flight - completed;
    }
}

/// The pacing rule neither busy-spins nor oversleeps: the wait is never
/// negative, never reaches past the frame interval, and for a frame that
/// finished early it lands exactly on the deadline.
pub proof fn lemma_wait_lands_on_the_deadline(target_frame_nanos: u64, elapsed_nanos: u64)
    ensures
        0 <= wait_nanos(target_frame_nanos, elapsed_nanos) <= target_frame_nanos,
        elapsed_nanos + wait_nanos(target_frame_nanos, elapsed_nanos) >= target_frame_nanos,
        elapsed_nanos < target_frame_nanos
            ==> elapsed_nanos + wait_nanos(target_frame_nanos, elapsed_nanos)
                == target_frame_nanos,
{
}

/// While the window has no drawable area, a tick touches the device not at
/// all: it goes straight from start to pacing, and neither submits GPU
/// work nor presents, nor changes any surface bookkeeping.
pub proof fn lemma_zero_extent_tick_no_submissions(s: FrameScheduler, elapsed_nanos: u64)
    requires
        s.wf(),
        s.enabled(SchedulerEvent::BeginTick),
        s.surface.zero_extent(),
        s.ticks_completed < u64::MAX,
    ensures
        s.begin_tick_decision() == TickStart::SkipZeroExtent,
        ({
            let begun = s.step(SchedulerEvent::BeginTick);
            let done = begun.step(SchedulerEvent::EndTick { elapsed_nanos });
            &&& begun.phase is Pacing
            &&& begun.enabled(SchedulerEvent::EndTick { elapsed_nanos })
            &&& done.gpu_submissions == s.gpu_submissions
            &&& done.frames_presented == s.frames_presented
            &&& done.in_flight == s.in_flight
            &&& done.surface == s.surface
            &&& done.phase is Ready
            &&& done.wf()
        }),
{
}

/// `n` ticks run while the window has no drawable area.
pub open spec fn run_skipped_ticks(s: FrameScheduler, n: nat) -> FrameScheduler
    decreases n,
{
    if n == 0 {
        s
    } else {
        run_skipped_ticks(
            s.step(SchedulerEvent::BeginTick).step(SchedulerEvent::EndTick { elapsed_nanos: 0 }),
            (n - 1) as nat,
        )
    }
}

/// However many ticks pass while the window has no drawable area, not one
/// GPU submission and not one present call is made, and nothing leaks:
/// once the extent is non-zero again the scheduler stands exactly as
/// before, but for the tick count.
pub proof fn lemma_zero_extent_run_no_submissions(s: FrameScheduler, n: nat)
    requires
        s.wf(),
        s.phase is Ready,
        !s.fatal,
        s.surface.zero_extent(),
        s.ticks_completed + n <= u64::MAX,
    ensures
        ({
            let done = run_skipped_ticks(s, n);
            &&& done.gpu_submissions == s.gpu_submissions
            &&& done.frames_presented == s.frames_presented
            &&& done.in_flight == s.in_flight
            &&& done.surface == s.surface
            &&& done.phase is Ready
            &&& !done.fatal
            &&& done.ticks_completed == s.ticks_completed + n
            &&& done.wf()
        }),
    decreases n,
{
    if n > 0 {
        lemma_zero_extent_run_no_submissions(
            s.step(SchedulerEvent::BeginTick).step(SchedulerEvent::EndTick { elapsed_nanos: 0 }),
            (n - 1) as nat,
        );
    }
}

/// A suboptimal acquire does not cost the frame: the surface is
/// invalidated at once, yet the tick still runs through both submissions
/// to a completed present call; and since the surface stands invalidated
/// when the tick ends, the next tick rebuilds the ring before it acquires.
pub proof fn lemma_suboptimal_acquire_presents_then_recreates(
    s: FrameScheduler,
    image_index: usize,
    present_outcome: PresentOutcome,
    elapsed_nanos: u64,
)
    requires
        s.wf(),
        s.enabled(
            SchedulerEvent::Acquired {
                outcome: AcquireOutcome::Success { image_index, suboptimal: true },
            },
        ),
        s.gpu_submissions + 2 <= u64::MAX,
        s.in_flight < s.max_in_flight,
        s.frames_presented < u64::MAX,
        s.ticks_completed < u64::MAX,
        !(present_outcome is DeviceLost),
    ensures
        s.acquire_decision(AcquireOutcome::Success { image_index, suboptimal: true })
            == (AcquireDecision::Proceed { image_index }),
        ({
            let acquired = s.step(
                SchedulerEvent::Acquired {
                    outcome: AcquireOutcome::Success { image_index, suboptimal: true },
                },
            );
            let computed = acquired.step(SchedulerEvent::ComputeSubmitted);
            let composited = computed.step(SchedulerEvent::CompositeSubmitted);
            let presented = composited.step(
                SchedulerEvent::PresentReturned { present_outcome },
            );
            let done = presented.step(SchedulerEvent::EndTick { elapsed_nanos });
            &&& acquired.surface.state is Invalidated
            &&& acquired.enabled(SchedulerEvent::ComputeSubmitted)
            &&& computed.enabled(SchedulerEvent::CompositeSubmitted)
            &&& composited.enabled(SchedulerEvent::PresentReturned { present_outcome })
            &&& presented.frames_presented == s.frames_presented + 1
            &&& presented.enabled(SchedulerEvent::EndTick { elapsed_nanos })
            &&& done.surface.state is Invalidated
            &&& done.begin_tick_decision() != TickStart::Acquire
            &&& done.wf()
        }),
{
}

} // verus!
