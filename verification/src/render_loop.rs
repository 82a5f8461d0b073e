//! The render loop's scheduling core: the per-tick state machine that
//! drives the viewport.
//!
//! The loop runs `Starting -> Running -> ... -> Stopping -> Stopped`.
//! Each tick checks the running flag, applies the drained command batch,
//! paces itself to the frame budget and presents. The thread that hosts
//! the loop performs the sleep, the GPU resize and the teardown that a
//! tick's report asks for; every decision is made — and proved — here.

use vstd::prelude::*;

use crate::command::{lemma_last_update_wins, plan_batch, plan_of, ViewportCommand};
use crate::config::ViewportConfig;
use crate::frame_buffer::FrameBuffer;
use crate::surface::SurfaceContext;
use crate::timing::{spec_record, FrameTiming};

verus! {

/// Time allotted per frame to sustain the 60 Hz target cadence, in
/// microseconds.
pub const FRAME_BUDGET_MICROS: u64 = 16_666;

/// Where the render loop stands in its lifecycle. `Stopping` is entered
/// on shutdown or on the running flag being cleared, triggers the
/// surface teardown and falls through to the terminal `Stopped`.
#[derive(Clone, Copy, Debug, PartialEq, Eq, Structural)]
pub enum LoopPhase {
    Starting,
    Running,
    Stopping,
    Stopped,
}

/// What one tick decided, for the hosting thread to carry out: the
/// configuration it applied (if any), whether the swapchain was
/// replaced, whether a frame was presented, whether the camera is to be
/// reset, whether the surface was torn down, and how long to sleep to
/// hold the cadence.
#[derive(Clone, Copy, Debug, PartialEq, Eq, Structural)]
pub struct TickReport {
    pub applied: Option<ViewportConfig>,
    pub swapchain_recreated: bool,
    pub presented: bool,
    pub camera_reset: bool,
    pub tore_down: bool,
    pub sleep_micros: u64,
}

/// The report of a tick that had nothing to do.
pub open spec fn empty_report() -> TickReport {
    TickReport {
        applied: None,
        swapchain_recreated: false,
        presented: false,
        camera_reset: false,
        tore_down: false,
        sleep_micros: 0,
    }
}

/// A counter bumped by one until it saturates.
pub open spec fn sat_inc(x: u64) -> int {
    if x < u64::MAX {
        x + 1
    } else {
        x as int
    }
}

/// How long a tick that took `elapsed` microseconds sleeps to hold the
/// frame budget: the remainder of the budget, or nothing when the budget
/// is spent.
pub open spec fn spec_sleep(elapsed: u64) -> int {
    if elapsed < FRAME_BUDGET_MICROS {
        FRAME_BUDGET_MICROS - elapsed
    } else {
        0
    }
}

/// The render loop's own state: its lifecycle phase, the configuration
/// it last applied, the frame buffer and surface it exclusively mutates,
/// and its timing history.
pub struct RenderLoop {
    phase: LoopPhase,
    applied_config: ViewportConfig,
    frame_buffer: FrameBuffer,
    surface: Option<SurfaceContext>,
    timing: FrameTiming,
    frames_presented: u64,
}

/// The full effect of one tick: how the loop's state after it (`post`)
/// and the tick's report follow from the state before it (`pre`), the
/// running flag and the drained batch.
pub open spec fn tick_rel(
    pre: RenderLoop,
    post: RenderLoop,
    running: bool,
    batch: Seq<ViewportCommand>,
    elapsed_micros: u64,
    report: TickReport,
) -> bool {
    // A tick never revives a loop: the phase only advances.
    &&& post.spec_phase() == if pre.spec_phase() is Starting || pre.spec_phase() is Stopped {
        pre.spec_phase()
    } else if pre.tick_stops(running, batch) {
        LoopPhase::Stopped
    } else {
        LoopPhase::Running
    }
    // A loop that never started or has stopped is left exactly as it was.
    &&& (pre.spec_phase() is Starting || pre.spec_phase() is Stopped ==> {
        &&& post == pre
        &&& report == empty_report()
    })
    // A stopping tick tears the surface down and nothing else.
    &&& (pre.tick_stops(running, batch) ==> {
        &&& (match pre.spec_surface() {
            Some(s) => {
                &&& post.spec_surface() matches Some(t)
                &&& post.spec_surface() matches Some(t) ==> {
                    &&& t.spec_torn_down()
                    &&& t.spec_width() == s.spec_width()
                    &&& t.spec_height() == s.spec_height()
                    &&& t.spec_generation() == s.spec_generation()
                }
            },
            None => post.spec_surface() is None,
        })
        &&& post.spec_applied_config() == pre.spec_applied_config()
        &&& post.spec_frame_buffer() == pre.spec_frame_buffer()
        &&& post.spec_timing() == pre.spec_timing()
        &&& post.spec_frames_presented() == pre.spec_frames_presented()
        &&& report == (TickReport {
            applied: None,
            swapchain_recreated: false,
            presented: false,
            camera_reset: false,
            tore_down: true,
            sleep_micros: 0,
        })
    })
    // A running tick applies the plan, records, presents and paces.
    &&& ((pre.spec_phase() is Running && running && !plan_of(batch).shutdown) ==> {
        &&& report.applied == pre.tick_applies(running, batch)
        &&& (match pre.tick_applies(running, batch) {
            Some(c) => {
                &&& post.spec_applied_config() == c
                &&& post.spec_frame_buffer().wf()
                &&& post.spec_frame_buffer().matches(c)
                &&& forall|i: int|
                    0 <= i < post.spec_frame_buffer().spec_bytes().len()
                        ==> post.spec_frame_buffer().spec_bytes()[i] == 0
                &&& (match pre.spec_surface() {
                    Some(s) => {
                        &&& post.spec_surface() matches Some(t)
                        &&& post.spec_surface() matches Some(t) ==> {
                            &&& !t.spec_torn_down()
                            &&& t.spec_width() == c.width
                            &&& t.spec_height() == c.height
                            &&& report.swapchain_recreated == !(c.width == s.spec_width()
                                && c.height == s.spec_height())
                            &&& !report.swapchain_recreated ==> t == s
                            &&& report.swapchain_recreated ==> t.spec_generation() == sat_inc(
                                s.spec_generation(),
                            )
                        }
                    },
                    None => {
                        &&& post.spec_surface() is None
                        &&& !report.swapchain_recreated
                    },
                })
            },
            None => {
                &&& post.spec_applied_config() == pre.spec_applied_config()
                &&& post.spec_frame_buffer() == pre.spec_frame_buffer()
                &&& post.spec_surface() == pre.spec_surface()
                &&& !report.swapchain_recreated
            },
        })
        &&& post.spec_timing().spec_samples() == spec_record(
            pre.spec_timing().spec_samples(),
            elapsed_micros,
        )
        &&& report.presented == (pre.spec_surface() is Some)
        &&& post.spec_frames_presented() == if report.presented {
            sat_inc(pre.spec_frames_presented())
        } else {
            pre.spec_frames_presented() as int
        }
        &&& report.camera_reset == plan_of(batch).reset_camera
        &&& !report.tore_down
        &&& report.sleep_micros == spec_sleep(elapsed_micros)
    })
}

/// Two configuration updates sent in immediate succession make the loop
/// converge to the second: whatever else was queued before them, as long
/// as no shutdown was drained, the tick that drains them applies exactly
/// the later configuration — the loop never ends up in a state matching
/// the first, nor a mixture.
pub proof fn lemma_tick_converges_to_last_update(
    pre: RenderLoop,
    post: RenderLoop,
    batch: Seq<ViewportCommand>,
    c1: ViewportConfig,
    c2: ViewportConfig,
    elapsed_micros: u64,
    report: TickReport,
)
    requires
        pre.spec_phase() is Running,
        !plan_of(batch).shutdown,
        c2.valid(),
        tick_rel(
            pre,
            post,
            true,
            batch.push(ViewportCommand::UpdateConfig(c1)).push(ViewportCommand::UpdateConfig(c2)),
            elapsed_micros,
            report,
        ),
    ensures
        post.spec_applied_config() == c2,
        post.spec_frame_buffer().matches(c2),
        report.applied == Some(c2),
{
    lemma_last_update_wins(batch, c1, c2);
}

/// Once the loop has stopped, no tick produces a frame or changes
/// anything again, whatever the channel yields.
pub proof fn lemma_no_frames_after_stop(
    pre: RenderLoop,
    post: RenderLoop,
    running: bool,
    batch: Seq<ViewportCommand>,
    elapsed_micros: u64,
    report: TickReport,
)
    requires
        pre.spec_phase() is Stopped,
        tick_rel(pre, post, running, batch, elapsed_micros, report),
    ensures
        post == pre,
        !report.presented,
        report == empty_report(),
{
}

impl RenderLoop {
    pub closed spec fn spec_phase(self) -> LoopPhase {
        self.phase
    }

    /// The configuration the loop last applied; the frame buffer always
    /// matches it.
    pub closed spec fn spec_applied_config(self) -> ViewportConfig {
        self.applied_config
    }

    pub closed spec fn spec_frame_buffer(self) -> FrameBuffer {
        self.frame_buffer
    }

    pub closed spec fn spec_surface(self) -> Option<SurfaceContext> {
        self.surface
    }

    pub closed spec fn spec_timing(self) -> FrameTiming {
        self.timing
    }

    pub closed spec fn spec_frames_presented(self) -> u64 {
        self.frames_presented
    }

    /// The loop's standing invariant: the applied configuration is
    /// valid, the frame buffer matches it byte for byte, the timing
    /// history is bounded, and the surface is intact until the loop
    /// stops and torn down once it has.
    pub open spec fn wf(self) -> bool {
        &&& self.spec_applied_config().valid()
        &&& self.spec_frame_buffer().wf()
        &&& self.spec_frame_buffer().matches(self.spec_applied_config())
        &&& self.spec_timing().wf()
        &&& (self.spec_surface() matches Some(s) ==> s.wf())
        &&& (self.spec_phase() is Stopped ==> (self.spec_surface() matches Some(s)
            ==> s.spec_torn_down()))
        &&& (!(self.spec_phase() is Stopped) ==> (self.spec_surface() matches Some(s)
            ==> !s.spec_torn_down()))
    }

    /// A loop that has not started: no surface, an empty history, a
    /// fresh zeroed frame buffer for the given configuration.
    pub fn new(config: ViewportConfig) -> (r: RenderLoop)
        requires
            config.valid(),
        ensures
            r.wf(),
            r.spec_phase() is Starting,
            r.spec_applied_config() == config,
            r.spec_surface() is None,
            r.spec_timing().spec_samples() == Seq::<u64>::empty(),
            r.spec_frames_presented() == 0,
            forall|i: int|
                0 <= i < r.spec_frame_buffer().spec_bytes().len()
                    ==> r.spec_frame_buffer().spec_bytes()[i] == 0,
    {
        RenderLoop {
            phase: LoopPhase::Starting,
            applied_config: config,
            frame_buffer: FrameBuffer::new(config.width, config.height),
            surface: None,
            timing: FrameTiming::new(),
            frames_presented: 0,
        }
    }

    pub fn phase(&self) -> (r: LoopPhase)
        ensures
            r == self.spec_phase(),
    {
        self.phase
    }

    pub fn applied_config(&self) -> (r: ViewportConfig)
        ensures
            r == self.spec_applied_config(),
    {
        self.applied_config
    }

    pub fn frame_buffer(&self) -> (r: &FrameBuffer)
        ensures
            *r == self.spec_frame_buffer(),
    {
        &self.frame_buffer
    }

    pub fn timing(&self) -> (r: &FrameTiming)
        ensures
            *r == self.spec_timing(),
    {
        &self.timing
    }

    pub fn frames_presented(&self) -> (r: u64)
        ensures
            r == self.spec_frames_presented(),
    {
        self.frames_presented
    }

    pub fn surface_generation(&self) -> (r: Option<u64>)
        ensures
            match self.spec_surface() {
                Some(s) => r == Some(s.spec_generation()),
                None => r is None,
            },
    {
        match &self.surface {
            Some(s) => Some(s.generation()),
            None => None,
        }
    }

    /// Hands the loop its surface context and starts it: the loop enters
    /// `Running` and begins producing frames. A surface left over from an
    /// earlier run is replaced.
    pub fn start(&mut self, surface: SurfaceContext)
        requires
            old(self).wf(),
            surface.wf(),
            !surface.spec_torn_down(),
        ensures
            final (self).wf(),
            final (self).spec_phase() is Running,
            final (self).spec_surface() == Some(surface),
            final (self).spec_applied_config() == old(self).spec_applied_config(),
            final (self).spec_frame_buffer() == old(self).spec_frame_buffer(),
            final (self).spec_timing() == old(self).spec_timing(),
            final (self).spec_frames_presented() == old(self).spec_frames_presented(),
    {
        self.surface = Some(surface);
        self.phase = LoopPhase::Running;
    }

    /// Whether a tick taken in this state, with this running flag and
    /// this batch, stops the loop: the flag was cleared, a shutdown was
    /// drained, or the loop was already stopping.
    pub open spec fn tick_stops(self, running: bool, batch: Seq<ViewportCommand>) -> bool {
        ||| self.spec_phase() is Stopping
        ||| (self.spec_phase() is Running && (!running || plan_of(batch).shutdown))
    }

    /// Whether a tick taken in this state applies a configuration: the
    /// loop keeps running and the batch's plan carries a valid one. A
    /// configuration superseded by a shutdown in the same batch is never
    /// applied — no swapchain is rebuilt just to be destroyed.
    pub open spec fn tick_applies(self, running: bool, batch: Seq<ViewportCommand>) -> Option<
        ViewportConfig,
    > {
        if self.spec_phase() is Running && running && !plan_of(batch).shutdown {
            match plan_of(batch).config {
                Some(c) => if c.valid() {
                    Some(c)
                } else {
                    None
                },
                None => None,
            }
        } else {
            None
        }
    }

    /// One tick of the render loop over an already drained batch,
    /// deterministic in the batch and therefore exactly specified for
    /// every batch the channel could have yielded: the new state and the
    /// report stand in `tick_rel` to the old state and the batch.
    ///
    /// A loop that never started, or has stopped, does nothing — once
    /// `Stopped`, no tick ever changes the state or presents again. A
    /// stopping tick tears the surface down and parks the loop in
    /// `Stopped`. A running tick applies the batch's plan (the last
    /// configuration sent, unless a shutdown supersedes it), records its
    /// elapsed time, presents one frame if a surface exists, and paces
    /// itself to the frame budget.
    pub fn tick_with(
        &mut self,
        running: bool,
        batch: &Vec<ViewportCommand>,
        elapsed_micros: u64,
    ) -> (report: TickReport)
        requires
            old(self).wf(),
        ensures
            final (self).wf(),
            tick_rel(*old(self), *final (self), running, batch@, elapsed_micros, report),
            // Presentation happens only while the loop runs.
            report.presented ==> old(self).spec_phase() is Running && final (self).spec_phase()
                is Running,
    {
        match self.phase {
            LoopPhase::Starting | LoopPhase::Stopped => {
                return TickReport {
                    applied: None,
                    swapchain_recreated: false,
                    presented: false,
                    camera_reset: false,
                    tore_down: false,
                    sleep_micros: 0,
                };
            },
            LoopPhase::Running | LoopPhase::Stopping => {},
        }
        let plan = plan_batch(batch);
        if matches!(self.phase, LoopPhase::Stopping) || !running || plan.shutdown {
            self.phase = LoopPhase::Stopping;
            match self.surface.as_mut() {
                Some(s) => s.teardown(),
                None => {},
            }
            self.phase = LoopPhase::Stopped;
            return TickReport {
                applied: None,
                swapchain_recreated: false,
                presented: false,
                camera_reset: false,
                tore_down: true,
                sleep_micros: 0,
            };
        }
        // Apply the drained plan: the last configuration sent wins.
        let mut applied: Option<ViewportConfig> = None;
        let mut recreated = false;
        match plan.config {
            Some(c) => {
                if c.validate().is_ok() {
                    self.applied_config = c;
                    self.frame_buffer.reallocate(c.width, c.height);
                    match self.surface.as_mut() {
                        Some(s) => {
                            recreated = s.resize(c.width, c.height);
                        },
                        None => {},
                    }
                    applied = Some(c);
                }
            },
            None => {},
        }
        // Record the tick's duration regardless of what else it did.
        self.timing.record(elapsed_micros);
        // Present one frame if a surface exists.
        let presented = self.surface.is_some();
        if presented {
            if self.frames_presented < u64::MAX {
                self.frames_presented = self.frames_presented + 1;
            }
        }
        // Pace to the fixed cadence rather than spin.
        let sleep_micros = if elapsed_micros < FRAME_BUDGET_MICROS {
            FRAME_BUDGET_MICROS - elapsed_micros
        } else {
            0
        };
        TickReport {
            applied,
            swapchain_recreated: recreated,
            presented,
            camera_reset: plan.reset_camera,
            tore_down: false,
            sleep_micros,
        }
    }
}

} // verus!
