//! The render/event loop's state machine.
//!
//! The loop is a machine over two modes, Running and Paused, that starts
//! Running. A GPU error pauses it; a reload signal rebuilds the pipeline and
//! resumes it whether or not the rebuild succeeded, so the next save always
//! gets a chance. The state owns the active pipeline as a generation number:
//! a successful rebuild swaps a fresh generation in, a failed one keeps the
//! old handle, which stays valid for drawing. The surrounding event loop
//! performs the window, file and GPU work and feeds every outcome back in
//! through one of the methods here.

use crate::uniforms::initial_uniforms;
use crate::uniforms::Uniforms;
use vstd::prelude::*;

verus! {

/// The target frame interval in nanoseconds, about 60 frames per second.
pub const FRAME_INTERVAL_NANOS: u64 = 16_666_667;

/// Whether the loop is rendering or waiting for the next reload.
#[derive(Clone, Copy, Debug, PartialEq, Eq, Structural)]
pub enum Mode {
    /// Frames are paced and drawn.
    Running,
    /// A GPU error was reported; no redraws are requested until a reload.
    Paused,
}

/// Everything the event-handling step mutates: the mode, the active pipeline
/// generation, the surface dimensions and the uniform record.
#[derive(Clone, Copy, Debug, PartialEq, Eq, Structural)]
pub struct RenderState {
    /// Running or Paused; Paused is the render-pause flag.
    pub mode: Mode,
    /// Identifies the active pipeline; bumped by each successful rebuild.
    pub pipeline_generation: u64,
    /// Present width of the surface, in physical pixels.
    pub surface_width: u32,
    /// Present height of the surface, in physical pixels.
    pub surface_height: u32,
    /// The record uploaded to the GPU before each draw.
    pub uniforms: Uniforms,
}

/// The state after a resize to `width` by `height` physical pixels, with the
/// matching logical size given as float bit patterns: applied only when both
/// dimensions are positive, ignored otherwise.
pub open spec fn spec_resize(
    s: RenderState,
    width: u32,
    height: u32,
    logical_w: u32,
    logical_h: u32,
) -> RenderState {
    if width > 0 && height > 0 {
        RenderState {
            surface_width: width,
            surface_height: height,
            uniforms: Uniforms { window_w: logical_w, window_h: logical_h, ..s.uniforms },
            ..s
        }
    } else {
        s
    }
}

/// The state after a reload signal was handled: the loop runs again whatever
/// the rebuild did, and the pipeline generation advances exactly when the
/// rebuild handed a new pipeline over.
pub open spec fn spec_on_reload(s: RenderState, rebuilt: bool) -> RenderState {
    RenderState {
        mode: Mode::Running,
        pipeline_generation: if rebuilt {
            (s.pipeline_generation + 1) as u64
        } else {
            s.pipeline_generation
        },
        ..s
    }
}

/// The state after the GPU driver reported an uncaptured error.
pub open spec fn spec_on_gpu_error(s: RenderState) -> RenderState {
    RenderState { mode: Mode::Paused, ..s }
}

/// The state after a frame began at `time` seconds (as a float bit pattern).
pub open spec fn spec_begin_frame(s: RenderState, time: u32) -> RenderState {
    RenderState { uniforms: Uniforms { time, ..s.uniforms }, ..s }
}

/// How long the pacing step sleeps when `elapsed` nanoseconds have passed
/// since the last frame: the remainder of the frame interval, or nothing
/// when the frame already overran.
pub open spec fn spec_sleep_budget(elapsed: u64) -> u64 {
    if elapsed < FRAME_INTERVAL_NANOS {
        (FRAME_INTERVAL_NANOS - elapsed) as u64
    } else {
        0
    }
}

impl RenderState {
    /// The loop's startup state: running, with the initial pipeline as
    /// generation zero, the given surface size, and untouched uniforms.
    pub fn new(surface_width: u32, surface_height: u32) -> (s: RenderState)
        ensures
            s.mode is Running,
            s.pipeline_generation == 0,
            s.surface_width == surface_width,
            s.surface_height == surface_height,
            s.uniforms == initial_uniforms(),
    {
        RenderState {
            mode: Mode::Running,
            pipeline_generation: 0,
            surface_width,
            surface_height,
            uniforms: Uniforms::default(),
        }
    }

    /// Handles a window resize to `width` by `height` physical pixels;
    /// `logical_w` and `logical_h` carry the matching logical size as float
    /// bit patterns. A resize with a zero dimension is ignored, not an
    /// error: the surface configuration and the uniform window size keep
    /// their values. Returns whether the surface must be reconfigured and a
    /// redraw requested.
    pub fn resize(&mut self, width: u32, height: u32, logical_w: u32, logical_h: u32) -> (applied:
        bool)
        ensures
            *final(self) == spec_resize(*old(self), width, height, logical_w, logical_h),
            applied == (width > 0 && height > 0),
    {
        if width > 0 && height > 0 {
            self.surface_width = width;
            self.surface_height = height;
            self.uniforms.window_w = logical_w;
            self.uniforms.window_h = logical_h;
            true
        } else {
            false
        }
    }

    /// Stores a new normalized mouse position, given as the bit patterns of
    /// the two floats the shader reads; nothing else changes.
    pub fn set_mouse(&mut self, mouse_x: u32, mouse_y: u32)
        ensures
            *final(self) == (RenderState {
                uniforms: Uniforms { mouse_x, mouse_y, ..old(self).uniforms },
                ..*old(self)
            }),
    {
        self.uniforms.mouse_x = mouse_x;
        self.uniforms.mouse_y = mouse_y;
    }

    /// Handles one reload signal: the caller has already run the pipeline
    /// builder and says whether a new pipeline was produced. The loop
    /// resumes in either case — pausing ends with the user's next save, not
    /// with a proven-good shader — while a failed rebuild keeps the previous
    /// pipeline generation active. Returns true: a redraw is requested
    /// either way.
    pub fn on_reload(&mut self, rebuilt: bool) -> (redraw: bool)
        requires
            old(self).pipeline_generation < u64::MAX,
        ensures
            *final(self) == spec_on_reload(*old(self), rebuilt),
            redraw,
    {
        self.mode = Mode::Running;
        if rebuilt {
            self.pipeline_generation = self.pipeline_generation + 1;
        }
        true
    }

    /// Handles an uncaptured GPU error: the loop pauses so the same broken
    /// pipeline cannot raise the same error every frame. Nothing else
    /// changes; in particular the active pipeline is kept.
    pub fn on_gpu_error(&mut self)
        ensures
            *final(self) == spec_on_gpu_error(*old(self)),
    {
        self.mode = Mode::Paused;
    }

    /// The pacing step's decision: a redraw is requested exactly while the
    /// loop is running. Paused, the loop requests nothing, which is what
    /// halts the error storm.
    pub fn should_redraw(&self) -> (r: bool)
        ensures
            r == (self.mode is Running),
    {
        match self.mode {
            Mode::Running => true,
            Mode::Paused => false,
        }
    }

    /// Begins one frame at `time` seconds since process start (as a float
    /// bit pattern): updates the uniform record's time and returns the exact
    /// 24 bytes to upload before the draw. The mode and the active pipeline
    /// are untouched: a frame only reads them.
    pub fn begin_frame(&mut self, time: u32) -> (bytes: Vec<u8>)
        ensures
            *final(self) == spec_begin_frame(*old(self), time),
            bytes@ == final(self).uniforms.bytes(),
    {
        self.uniforms.time = time;
        self.uniforms.as_bytes()
    }
}

/// Computes the sleep that keeps the loop at the target frame rate, from the
/// nanoseconds elapsed since the last frame; an overrun sleeps zero and is
/// absorbed silently.
pub fn sleep_budget_nanos(elapsed: u64) -> (r: u64)
    ensures
        r == spec_sleep_budget(elapsed),
        elapsed + r >= FRAME_INTERVAL_NANOS || r == 0,
{
    if elapsed < FRAME_INTERVAL_NANOS {
        FRAME_INTERVAL_NANOS - elapsed
    } else {
        0
    }
}

/// One event of the render/event loop, as the state machine sees it: each
/// outside outcome already in plain form, the way the loop hands it to the
/// methods above.
pub enum LoopEvent {
    /// A window resize, with the logical size as float bit patterns.
    Resized { width: u32, height: u32, logical_w: u32, logical_h: u32 },
    /// A new normalized mouse position, as two float bit patterns.
    MouseMoved { mouse_x: u32, mouse_y: u32 },
    /// A reload signal, and whether the rebuild produced a new pipeline.
    Reload { rebuilt: bool },
    /// An uncaptured GPU error report.
    GpuError,
    /// One frame began at this time (a float bit pattern).
    Frame { time: u32 },
}

/// The state after handling one event.
pub open spec fn spec_step(s: RenderState, e: LoopEvent) -> RenderState {
    match e {
        LoopEvent::Resized { width, height, logical_w, logical_h } => spec_resize(
            s,
            width,
            height,
            logical_w,
            logical_h,
        ),
        LoopEvent::MouseMoved { mouse_x, mouse_y } => RenderState {
            uniforms: Uniforms { mouse_x, mouse_y, ..s.uniforms },
            ..s
        },
        LoopEvent::Reload { rebuilt } => spec_on_reload(s, rebuilt),
        LoopEvent::GpuError => spec_on_gpu_error(s),
        LoopEvent::Frame { time } => spec_begin_frame(s, time),
    }
}

/// The state after handling a whole run of events, in order.
pub open spec fn spec_run(s: RenderState, events: Seq<LoopEvent>) -> RenderState
    decreases events.len(),
{
    if events.len() == 0 {
        s
    } else {
        spec_run(spec_step(s, events[0]), events.drop_first())
    }
}

/// How many events of a run are reload signals whose rebuild succeeded.
pub open spec fn successful_rebuilds(events: Seq<LoopEvent>) -> nat
    decreases events.len(),
{
    if events.len() == 0 {
        0
    } else {
        (if events[0] matches LoopEvent::Reload { rebuilt: true } {
            1nat
        } else {
            0nat
        }) + successful_rebuilds(events.drop_first())
    }
}

/// Law: the active pipeline is always the one the last successful rebuild
/// installed. Over any run of events the pipeline generation advances by
/// exactly the number of successful rebuilds: failed rebuilds, GPU errors,
/// resizes, mouse moves and frames never change which pipeline is drawn, so
/// the handle a frame uses is at worst stale, never torn down.
pub proof fn lemma_active_pipeline_is_last_successful_rebuild(
    s: RenderState,
    events: Seq<LoopEvent>,
)
    requires
        s.pipeline_generation + successful_rebuilds(events) <= u64::MAX,
    ensures
        spec_run(s, events).pipeline_generation == s.pipeline_generation + successful_rebuilds(
            events,
        ),
    decreases events.len(),
{
    if events.len() > 0 {
        lemma_active_pipeline_is_last_successful_rebuild(
            spec_step(s, events[0]),
            events.drop_first(),
        );
    }
}

/// Law: a reload signal always resumes rendering. From any state — in
/// particular a paused one — handling a reload leaves the loop Running and
/// requesting redraws, whether or not the rebuilt pipeline was valid.
pub proof fn lemma_reload_resumes(s: RenderState, rebuilt: bool)
    ensures
        spec_on_reload(s, rebuilt).mode is Running,
{
}

/// Law: a reload that produced a valid pipeline activates it. The new
/// generation is fresh — it differs from the one active before — and the
/// loop leaves any pause, so the new pipeline is the one drawn from here on.
pub proof fn lemma_successful_reload_activates_new_pipeline(s: RenderState)
    requires
        s.pipeline_generation < u64::MAX,
    ensures
        spec_on_reload(s, true).pipeline_generation == s.pipeline_generation + 1,
        spec_on_reload(s, true).pipeline_generation != s.pipeline_generation,
        spec_on_reload(s, true).mode is Running,
{
}

/// Law: an invalid shader pauses rendering and keeps the last good pipeline.
/// A reload whose rebuild failed, followed by the driver's asynchronous
/// error report, leaves the loop Paused — so no further redraws are
/// requested — and any frame that is still drawn uses the pipeline
/// generation from before the reload.
pub proof fn lemma_invalid_reload_pauses_and_keeps_pipeline(s: RenderState, time: u32)
    ensures
        spec_on_gpu_error(spec_on_reload(s, false)).mode is Paused,
        spec_on_gpu_error(spec_on_reload(s, false)).pipeline_generation == s.pipeline_generation,
        spec_begin_frame(spec_on_gpu_error(spec_on_reload(s, false)), time).pipeline_generation
            == s.pipeline_generation,
{
}

/// Law: a resize to a zero dimension is a no-op. With width or height zero
/// the whole state is unchanged: the surface configuration as well as the
/// uniform window size keep their values.
pub proof fn lemma_zero_resize_is_noop(
    s: RenderState,
    width: u32,
    height: u32,
    logical_w: u32,
    logical_h: u32,
)
    requires
        width == 0 || height == 0,
    ensures
        spec_resize(s, width, height, logical_w, logical_h) == s,
{
}

} // verus!
