//! The shared viewport state: the single point of truth the host UI
//! shell talks to, and the aggregate the render loop works against.

use vstd::prelude::*;

use crate::channel::{
    clone_command_receiver, drain_commands, new_command_channel, try_send_command, SendFailure,
    COMMAND_CAPACITY,
};
use crate::command::ViewportCommand;
use crate::config::{frame_bytes, ViewportConfig, ViewportError, ViewportStatus};
use crate::render_loop::{empty_report, LoopPhase, RenderLoop, TickReport};
use crate::surface::SurfaceContext;

verus! {

/// The window system a platform handle came from.
#[derive(Clone, Copy, Debug, PartialEq, Eq, Structural)]
pub enum WindowSystem {
    Win32,
    Xlib,
    AppKit,
    Other,
}

/// Platform-agnostic storage of the window handle the presentation
/// surface is bound to: the raw handle value as an integer, tagged with
/// the system it belongs to.
#[derive(Clone, Copy, Debug, PartialEq, Eq, Structural)]
pub struct VulkanHandle {
    pub system: WindowSystem,
    pub window: u64,
    pub is_active: bool,
}

impl VulkanHandle {
    /// Wraps a platform window handle. Only the window systems the
    /// renderer supports are accepted; anything else is rejected before
    /// any GPU object is created.
    pub fn new(system: WindowSystem, window: u64) -> (r: Result<VulkanHandle, ViewportError>)
        ensures
            system is Other ==> r == Err::<VulkanHandle, ViewportError>(
                ViewportError::UnsupportedWindowSystem,
            ),
            !(system is Other) ==> r == Ok::<VulkanHandle, ViewportError>(
                (VulkanHandle { system, window, is_active: true }),
            ),
    {
        match system {
            WindowSystem::Other => Err(ViewportError::UnsupportedWindowSystem),
            _ => Ok(VulkanHandle { system, window, is_active: true }),
        }
    }
}

/// The configuration the viewport starts with before any is applied.
pub open spec fn default_config() -> ViewportConfig {
    ViewportConfig { x: 0, y: 0, width: 800, height: 600, device_pixel_ratio_milli: 1000 }
}

/// The long-lived aggregate: the configuration last requested by the UI
/// side, the stored window handle, the running flag, the command
/// channel's two endpoints, and the render loop's state.
pub struct ViewportState {
    requested_config: ViewportConfig,
    vulkan_handle: Option<VulkanHandle>,
    running: bool,
    command_sender: crossbeam_channel::Sender<ViewportCommand>,
    command_receiver: crossbeam_channel::Receiver<ViewportCommand>,
    render: RenderLoop,
}

impl ViewportState {
    pub closed spec fn spec_requested_config(self) -> ViewportConfig {
        self.requested_config
    }

    pub closed spec fn spec_vulkan_handle(self) -> Option<VulkanHandle> {
        self.vulkan_handle
    }

    pub closed spec fn spec_running(self) -> bool {
        self.running
    }

    pub closed spec fn spec_render(self) -> RenderLoop {
        self.render
    }

    /// The aggregate's standing invariant.
    pub open spec fn wf(self) -> bool {
        &&& self.spec_requested_config().valid()
        &&& self.spec_render().wf()
    }

    /// The snapshot a status read returns: the configuration the render
    /// loop last applied, the byte size of the frame buffer that
    /// configuration dictates, the rolling timing figures, and whether
    /// the loop is producing frames.
    pub open spec fn status_spec(self) -> ViewportStatus {
        ViewportStatus {
            width: self.spec_render().spec_applied_config().width,
            height: self.spec_render().spec_applied_config().height,
            buffer_size: frame_bytes(
                self.spec_render().spec_applied_config().width,
                self.spec_render().spec_applied_config().height,
            ) as u64,
            device_pixel_ratio_milli: self.spec_render().spec_applied_config(
            ).device_pixel_ratio_milli,
            fps_milli: self.spec_render().spec_timing().spec_fps_milli() as u64,
            average_frame_time_micros: self.spec_render().spec_timing().spec_average_micros()
                as u64,
            rendering: self.spec_render().spec_phase() is Running,
        }
    }

    /// A fresh viewport: default configuration, no window handle, a
    /// bounded command channel, a render loop that has not started, and
    /// the running flag raised so the loop can run once started.
    pub fn new() -> (r: ViewportState)
        ensures
            r.wf(),
            r.spec_requested_config() == default_config(),
            r.spec_vulkan_handle() is None,
            r.spec_running(),
            r.spec_render().spec_phase() is Starting,
            r.spec_render().spec_applied_config() == default_config(),
            r.spec_render().spec_surface() is None,
            r.spec_render().spec_frames_presented() == 0,
    {
        let config = ViewportConfig { x: 0, y: 0, width: 800, height: 600, device_pixel_ratio_milli: 1000 };
        let (sender, receiver) = new_command_channel(COMMAND_CAPACITY);
        ViewportState {
            requested_config: config,
            vulkan_handle: None,
            running: true,
            command_sender: sender,
            command_receiver: receiver,
            render: RenderLoop::new(config),
        }
    }

    /// Stores the platform window handle the surface will be bound to.
    pub fn set_vulkan_handle(&mut self, handle: VulkanHandle)
        ensures
            final (self).spec_vulkan_handle() == Some(handle),
            final (self).spec_requested_config() == old(self).spec_requested_config(),
            final (self).spec_running() == old(self).spec_running(),
            final (self).spec_render() == old(self).spec_render(),
            old(self).wf() ==> final (self).wf(),
    {
        self.vulkan_handle = Some(handle);
    }

    pub fn vulkan_handle(&self) -> (r: Option<VulkanHandle>)
        ensures
            r == self.spec_vulkan_handle(),
    {
        self.vulkan_handle
    }

    /// Where the render loop stands in its lifecycle.
    pub fn render_phase(&self) -> (r: LoopPhase)
        ensures
            r == self.spec_render().spec_phase(),
    {
        self.render.phase()
    }

    /// How many frames the render loop has presented so far.
    pub fn frames_presented(&self) -> (r: u64)
        ensures
            r == self.spec_render().spec_frames_presented(),
    {
        self.render.frames_presented()
    }

    pub fn is_running(&self) -> (r: bool)
        ensures
            r == self.spec_running(),
    {
        self.running
    }

    /// Raises or clears the running flag; the render loop observes a
    /// cleared flag at the top of its next tick and stops.
    pub fn set_running(&mut self, running: bool)
        ensures
            final (self).spec_running() == running,
            final (self).spec_requested_config() == old(self).spec_requested_config(),
            final (self).spec_vulkan_handle() == old(self).spec_vulkan_handle(),
            final (self).spec_render() == old(self).spec_render(),
            old(self).wf() ==> final (self).wf(),
    {
        self.running = running;
    }

    /// Enqueues one command for the render loop without blocking. The
    /// only failures are the channel being full (backpressure) or the
    /// receiving side being gone; which occurs depends on the render
    /// thread, so the result reports it rather than any contract
    /// predicting it.
    pub fn send_command(&self, cmd: ViewportCommand) -> (r: Result<(), ViewportError>)
        ensures
            r is Ok || r == Err::<(), ViewportError>(ViewportError::ChannelFull) || r == Err::<
                (),
                ViewportError,
            >(ViewportError::ChannelClosed),
    {
        match try_send_command(&self.command_sender, cmd) {
            Ok(()) => Ok(()),
            Err(SendFailure::Full) => Err(ViewportError::ChannelFull),
            Err(SendFailure::Disconnected) => Err(ViewportError::ChannelClosed),
        }
    }

    /// Requests a configuration change: validates it, then enqueues it
    /// for the render loop to apply. Invalid dimensions are rejected
    /// here, synchronously, and never reach the loop. The apply itself
    /// is fire-and-forget; the UI polls `get_status` to observe
    /// convergence.
    pub fn update_config(&self, config: ViewportConfig) -> (r: Result<(), ViewportError>)
        ensures
            !config.valid() ==> r == Err::<(), ViewportError>(ViewportError::InvalidDimensions),
            config.valid() ==> r is Ok || r == Err::<(), ViewportError>(ViewportError::ChannelFull)
                || r == Err::<(), ViewportError>(ViewportError::ChannelClosed),
    {
        config.validate()?;
        self.send_command(ViewportCommand::UpdateConfig(config))
    }

    /// Requests a cooperative shutdown of the render loop. Idempotent:
    /// the loop treats the first shutdown it drains as terminal, so
    /// sending it again changes nothing.
    pub fn shutdown(&self) -> (r: Result<(), ViewportError>)
        ensures
            r is Ok || r == Err::<(), ViewportError>(ViewportError::ChannelFull) || r == Err::<
                (),
                ViewportError,
            >(ViewportError::ChannelClosed),
    {
        self.send_command(ViewportCommand::Shutdown)
    }

    /// Requests a camera reset, fire-and-forget like `update_config`.
    pub fn reset_camera(&self) -> (r: Result<(), ViewportError>)
        ensures
            r is Ok || r == Err::<(), ViewportError>(ViewportError::ChannelFull) || r == Err::<
                (),
                ViewportError,
            >(ViewportError::ChannelClosed),
    {
        self.send_command(ViewportCommand::ResetCamera)
    }

    /// A second endpoint of the command channel, for the thread hosting
    /// the render loop to poll.
    pub fn command_receiver(&self) -> crossbeam_channel::Receiver<ViewportCommand> {
        clone_command_receiver(&self.command_receiver)
    }

    /// Brings the viewport up on a validated configuration and a freshly
    /// created surface: replaces the frame buffer, hands the surface to
    /// the render loop and starts it, and returns the first status
    /// snapshot — whose buffer size is exactly `width * height * 4`.
    ///
    /// A zero or invalid dimension fails synchronously with the state
    /// untouched: no render loop is started. Construction failures never
    /// reach this function — the surface is created first, and its
    /// errors are returned to the caller directly.
    ///
    /// When the viewport was already running, the host is expected to
    /// have signalled `Shutdown` and joined the previous loop's thread
    /// first; the loop's state is rebuilt from scratch here.
    pub fn initialize(&mut self, config: ViewportConfig, surface: SurfaceContext) -> (r: Result<
        ViewportStatus,
        ViewportError,
    >)
        requires
            old(self).wf(),
            surface.wf(),
            !surface.spec_torn_down(),
        ensures
            final (self).wf(),
            !config.valid() ==> {
                &&& r == Err::<ViewportStatus, ViewportError>(ViewportError::InvalidDimensions)
                &&& *final (self) == *old(self)
            },
            config.valid() ==> {
                &&& r matches Ok(status)
                &&& r matches Ok(status) ==> {
                    &&& status == final (self).status_spec()
                    &&& status.width == config.width
                    &&& status.height == config.height
                    &&& status.buffer_size == config.width * config.height * 4
                    &&& status.device_pixel_ratio_milli == config.device_pixel_ratio_milli
                    &&& status.rendering
                }
                &&& final (self).spec_requested_config() == config
                &&& final (self).spec_running()
                &&& final (self).spec_vulkan_handle() == old(self).spec_vulkan_handle()
                &&& final (self).spec_render().spec_phase()
                    is Running
                &&& final (self).spec_render().spec_applied_config() == config
                &&& final (self).spec_render().spec_surface() == Some(surface)
                &&& final (self).spec_render().spec_timing().spec_samples() == Seq::<u64>::empty()
                &&& final (self).spec_render().spec_frames_presented() == 0
            },
    {
        if let Err(e) = config.validate() {
            return Err(e);
        }
        self.requested_config = config;
        self.running = true;
        let mut render = RenderLoop::new(config);
        render.start(surface);
        self.render = render;
        Ok(self.get_status())
    }

    /// A consistent snapshot of the viewport. The dimensions, the ratio
    /// and the buffer size all come from the one configuration the
    /// render loop last applied, so no read can mix the buffer of one
    /// size with the dimensions of another.
    pub fn get_status(&self) -> (r: ViewportStatus)
        requires
            self.wf(),
        ensures
            r == self.status_spec(),
            r.buffer_size == r.width * r.height * 4,
            r.buffer_size == self.spec_render().spec_frame_buffer().spec_bytes().len(),
    {
        let config = self.render.applied_config();
        proof {
            assert(config.width * config.height * 4 <= 0x4000_0000int) by (nonlinear_arith)
                requires
                    config.width <= crate::config::MAX_DIMENSION,
                    config.height <= crate::config::MAX_DIMENSION,
            ;
        }
        let buffer_size: u64 = (config.width as u64) * (config.height as u64) * 4;
        let timing = self.render.timing();
        let fps_milli = timing.fps_milli();
        let average_frame_time_micros = timing.average_micros();
        let rendering = matches!(self.render.phase(), LoopPhase::Running);
        ViewportStatus {
            width: config.width,
            height: config.height,
            buffer_size,
            device_pixel_ratio_milli: config.device_pixel_ratio_milli,
            fps_milli,
            average_frame_time_micros,
            rendering,
        }
    }

    /// A copy of the current frame's bytes together with the status
    /// snapshot they belong to, for explicit-pull frame delivery.
    pub fn get_frame_data(&self) -> (r: (Vec<u8>, ViewportStatus))
        requires
            self.wf(),
        ensures
            r.0@ == self.spec_render().spec_frame_buffer().spec_bytes(),
            r.1 == self.status_spec(),
            r.0@.len() == r.1.buffer_size,
    {
        let bytes = self.render.frame_buffer().to_bytes();
        let status = self.get_status();
        (bytes, status)
    }

    /// One tick of the render loop: drains every currently queued
    /// command (up to the channel's capacity) and runs the loop's
    /// schedule over the drained batch. What the channel yields depends
    /// on the sending thread, so this contract states what holds of
    /// every batch; `RenderLoop::tick_with` pins the outcome exactly for
    /// each.
    pub fn tick(&mut self, elapsed_micros: u64) -> (report: TickReport)
        requires
            old(self).wf(),
        ensures
            final (self).wf(),
            final (self).spec_requested_config() == old(self).spec_requested_config(),
            final (self).spec_vulkan_handle() == old(self).spec_vulkan_handle(),
            final (self).spec_running() == old(self).spec_running(),
            // A stopped loop stays stopped, untouched, and presents nothing.
            old(self).spec_render().spec_phase() is Stopped ==> {
                &&& final (self).spec_render() == old(self).spec_render()
                &&& report == empty_report()
            },
            // Frames are presented only while the loop runs.
            report.presented ==> old(self).spec_render().spec_phase()
                is Running && final (self).spec_render().spec_phase()
                is Running,
            // A cleared running flag stops a running loop this very tick.
            !old(self).spec_running() && old(self).spec_render().spec_phase() is Running
                ==> final (self).spec_render().spec_phase() is Stopped,
            // Some batch of at most the channel's capacity accounts for
            // the whole transition and the report, exactly as one
            // deterministic `tick_with` over it would.
            exists|batch: Seq<ViewportCommand>|
                {
                    &&& batch.len() <= COMMAND_CAPACITY
                    &&& #[trigger] crate::render_loop::tick_rel(
                        old(self).spec_render(),
                        final (self).spec_render(),
                        old(self).spec_running(),
                        batch,
                        elapsed_micros,
                        report,
                    )
                },
    {
        let batch = drain_commands(&self.command_receiver, COMMAND_CAPACITY);
        let running = self.running;
        let report = self.render.tick_with(running, &batch, elapsed_micros);
        proof {
            assert(crate::render_loop::tick_rel(
                old(self).spec_render(),
                self.spec_render(),
                old(self).spec_running(),
                batch@,
                elapsed_micros,
                report,
            ));
        }
        report
    }
}

/// A status snapshot is internally consistent: its buffer size is
/// exactly four bytes per pixel of its own dimensions, and it equals
/// the length of the frame buffer actually held — so no reader can
/// observe a buffer size belonging to anything but the last completed
/// resize.
pub proof fn lemma_status_consistent(s: ViewportState)
    requires
        s.wf(),
    ensures
        s.status_spec().buffer_size == s.status_spec().width * s.status_spec().height * 4,
        s.status_spec().buffer_size == s.spec_render().spec_frame_buffer().spec_bytes().len(),
        s.status_spec().width == s.spec_render().spec_frame_buffer().spec_width(),
        s.status_spec().height == s.spec_render().spec_frame_buffer().spec_height(),
{
    let c = s.spec_render().spec_applied_config();
    assert(c.width * c.height * 4 <= 0x4000_0000int) by (nonlinear_arith)
        requires
            c.width <= crate::config::MAX_DIMENSION,
            c.height <= crate::config::MAX_DIMENSION,
    ;
}

} // verus!
