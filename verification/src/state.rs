//! The frame-lifecycle state machine.
//!
//! `State` holds the stored surface configuration, the clamped window size,
//! the flag that permits rendering, and the liveness of the transient frame
//! scope.  Its methods decide, for each window or acquire event, what the
//! surrounding windowing and GPU layer must do next; that layer executes the
//! decisions and feeds the outcomes back in.

use vstd::prelude::*;

use crate::frame::FrameRecording;
use crate::surface::clamped_size;
use crate::surface::Size;
use crate::surface::SurfaceConfig;
use crate::surface::SurfaceFormat;
use crate::surface::MIN_WINDOW_SIZE;

verus! {

/// The ways acquiring the next presentable texture can fail.
#[derive(Clone, Copy, Debug, PartialEq, Eq, Structural)]
pub enum SurfaceError {
    /// The surface's binding to the window was lost; it must be rebuilt.
    Lost,
    /// The surface no longer matches the window (a resize race); it must be
    /// reconfigured.
    Outdated,
    /// The system is out of memory; the application must stop.
    OutOfMemory,
    /// The frame took too long to present; nothing needs to change.
    Timeout,
}

/// What one render call did.
#[derive(Clone, Copy, Debug, PartialEq, Eq, Structural)]
pub enum RenderStatus {
    /// The surface was never configured, so the call was a safe no-op.
    NotConfigured,
    /// A frame was recorded, submitted and presented.
    Presented,
}

/// The classification of a redraw request's outcome.
#[derive(Clone, Copy, Debug, PartialEq, Eq, Structural)]
pub enum FrameOutcome {
    /// No frame was attempted.
    Skipped,
    /// A frame was presented.
    Presented,
    /// The surface was stale; it must be reconfigured with the stored size.
    Stale,
    /// Presentation timed out; continue unchanged.
    TimedOut,
    /// Out of memory; the event loop must stop.
    Fatal,
}

/// What the windowing layer must do after an event was handled.
#[derive(Clone, Copy, Debug, PartialEq, Eq, Structural)]
pub struct Directive {
    /// How the frame attempt, if any, ended.
    pub outcome: FrameOutcome,
    /// Ask the window for another redraw (the continuous-redraw loop).
    pub schedule_redraw: bool,
    /// Re-apply the stored surface configuration to the device.
    pub reconfigure_surface: bool,
    /// Stop the event loop.
    pub exit: bool,
}

/// A window-system event, reduced to what the core reads of it.
#[derive(Clone, Copy, Debug, PartialEq, Eq, Structural)]
pub enum EventKind {
    /// The user asked to close the window.
    CloseRequested,
    /// The window was resized to the given physical size.
    Resized(Size),
    /// The window asks for a frame.
    RedrawRequested,
    /// A key changed state; the code identifies the physical key.
    KeyboardInput { pressed: bool, key_code: u32 },
    /// Anything the core ignores.
    Other,
}

/// The core state driving one window's rendering loop.
#[derive(Clone, Copy, Debug, PartialEq, Eq, Structural)]
pub struct State {
    /// The stored surface configuration, re-applied on configure.
    pub config: SurfaceConfig,
    /// The last stored window size, clamped to the floor on configure.
    pub size: Size,
    /// True once the surface has been configured; every render checks it.
    pub surface_configured: bool,
    /// Ask for another redraw after every redraw.
    pub continuous_redraw: bool,
    /// A transient frame scope is outstanding.
    pub frame_live: bool,
}

/// The state after a configure request: both dimensions raised to the floor,
/// the stored configuration updated to match, and rendering permitted.
pub open spec fn spec_resize(s: State, requested: Size) -> State {
    let sz = clamped_size(requested);
    State {
        config: SurfaceConfig { width: sz.width, height: sz.height, ..s.config },
        size: sz,
        surface_configured: true,
        ..s
    }
}

/// The result of a render call: a no-op before the first configure,
/// otherwise the acquire outcome decides.
pub open spec fn spec_render_result(s: State, acquire: Result<(), SurfaceError>) -> Result<
    RenderStatus,
    SurfaceError,
> {
    if !s.surface_configured {
        Ok(RenderStatus::NotConfigured)
    } else {
        match acquire {
            Ok(_) => Ok(RenderStatus::Presented),
            Err(e) => Err(e),
        }
    }
}

/// The directive a redraw request produces: always re-request a redraw in
/// continuous mode; reconfigure on a stale surface; exit on out-of-memory;
/// carry on otherwise.
pub open spec fn spec_redraw_directive(s: State, acquire: Result<(), SurfaceError>) -> Directive {
    let sched = s.continuous_redraw;
    if !s.surface_configured {
        Directive {
            outcome: FrameOutcome::Skipped,
            schedule_redraw: sched,
            reconfigure_surface: false,
            exit: false,
        }
    } else {
        match acquire {
            Ok(_) => Directive {
                outcome: FrameOutcome::Presented,
                schedule_redraw: sched,
                reconfigure_surface: false,
                exit: false,
            },
            Err(SurfaceError::Lost) => Directive {
                outcome: FrameOutcome::Stale,
                schedule_redraw: sched,
                reconfigure_surface: true,
                exit: false,
            },
            Err(SurfaceError::Outdated) => Directive {
                outcome: FrameOutcome::Stale,
                schedule_redraw: sched,
                reconfigure_surface: true,
                exit: false,
            },
            Err(SurfaceError::OutOfMemory) => Directive {
                outcome: FrameOutcome::Fatal,
                schedule_redraw: sched,
                reconfigure_surface: false,
                exit: true,
            },
            Err(SurfaceError::Timeout) => Directive {
                outcome: FrameOutcome::TimedOut,
                schedule_redraw: sched,
                reconfigure_surface: false,
                exit: false,
            },
        }
    }
}

/// The directive each window event produces.
pub open spec fn spec_event_directive(
    s: State,
    event: EventKind,
    acquire: Result<(), SurfaceError>,
) -> Directive {
    match event {
        EventKind::CloseRequested => Directive {
            outcome: FrameOutcome::Skipped,
            schedule_redraw: false,
            reconfigure_surface: false,
            exit: true,
        },
        EventKind::Resized(_) => Directive {
            outcome: FrameOutcome::Skipped,
            schedule_redraw: false,
            reconfigure_surface: true,
            exit: false,
        },
        EventKind::RedrawRequested => spec_redraw_directive(s, acquire),
        _ => Directive {
            outcome: FrameOutcome::Skipped,
            schedule_redraw: false,
            reconfigure_surface: false,
            exit: false,
        },
    }
}

/// The state each window event leaves behind: only a resize changes it.
pub open spec fn spec_event_state(s: State, event: EventKind) -> State {
    match event {
        EventKind::Resized(sz) => spec_resize(s, sz),
        _ => s,
    }
}

/// True of a physical-key press event for the given key.
pub open spec fn spec_key_pressed(event: EventKind, key_code: u32) -> bool {
    event matches EventKind::KeyboardInput { pressed, key_code: code } && pressed && code
        == key_code
}

impl State {
    /// Well-formedness between calls: no transient frame scope is
    /// outstanding, the stored configuration matches the stored size, both
    /// dimensions are at least one, and once configured the stored size sits
    /// at or above the floor.
    pub open spec fn wf(self) -> bool {
        &&& !self.frame_live
        &&& self.config.width == self.size.width
        &&& self.config.height == self.size.height
        &&& self.size.width >= 1
        &&& self.size.height >= 1
        &&& self.surface_configured ==> self.size == clamped_size(self.size)
    }

    /// A fresh core state around a surface that is not yet configured.  The
    /// initial size is taken from the window, raised to at least one pixel
    /// per dimension; format and present mode are the negotiated startup
    /// choices.
    pub fn new(
        format: SurfaceFormat,
        present_mode: u32,
        initial_size: Size,
        continuous_redraw: bool,
    ) -> (s: State)
        ensures
            s.wf(),
            !s.surface_configured,
            !s.frame_live,
            s.continuous_redraw == continuous_redraw,
            s.config.format == format,
            s.config.present_mode == present_mode,
            s.size.width == (if initial_size.width < 1 {
                1u32
            } else {
                initial_size.width
            }),
            s.size.height == (if initial_size.height < 1 {
                1u32
            } else {
                initial_size.height
            }),
            s.config.width == s.size.width,
            s.config.height == s.size.height,
    {
        let width = if initial_size.width < 1 {
            1
        } else {
            initial_size.width
        };
        let height = if initial_size.height < 1 {
            1
        } else {
            initial_size.height
        };
        State {
            config: SurfaceConfig { format, width, height, present_mode },
            size: Size { width, height },
            surface_configured: false,
            continuous_redraw,
            frame_live: false,
        }
    }

    /// Window input other than the events handled below; nothing consumes
    /// it here.
    pub fn input(&mut self, event: &EventKind) -> (r: bool)
        ensures
            *final(self) == *old(self),
            r == false,
    {
        let _ = event;
        false
    }

    /// Configure the surface for a requested size.  Both dimensions are
    /// raised to the floor before they are stored — the floor holds of the
    /// stored size, not merely the requested one — and rendering becomes
    /// permitted.  Re-applying the stored configuration to the device is the
    /// surrounding layer's part.
    pub fn resize(&mut self, new_size: Size)
        requires
            old(self).wf(),
        ensures
            *final(self) == spec_resize(*old(self), new_size),
            final(self).wf(),
            final(self).surface_configured,
            final(self).config.width == (if new_size.width < MIN_WINDOW_SIZE {
                MIN_WINDOW_SIZE
            } else {
                new_size.width
            }),
            final(self).config.height == (if new_size.height < MIN_WINDOW_SIZE {
                MIN_WINDOW_SIZE
            } else {
                new_size.height
            }),
            final(self).config.width >= MIN_WINDOW_SIZE,
            final(self).config.height >= MIN_WINDOW_SIZE,
            final(self).config.format == old(self).config.format,
            final(self).config.present_mode == old(self).config.present_mode,
            final(self).continuous_redraw == old(self).continuous_redraw,
    {
        let clamped = new_size.clamp_to_floor();
        self.size = clamped;
        self.config.width = clamped.width;
        self.config.height = clamped.height;
        self.surface_configured = true;
    }

    /// Open the transient frame scope.  Only a configured, idle state may
    /// begin a frame; the returned recording is the only way to reach the
    /// pass, and `end_frame` is the only way out.
    pub fn begin_frame(&mut self) -> (r: FrameRecording)
        requires
            old(self).wf(),
            old(self).surface_configured,
        ensures
            *final(self) == (State { frame_live: true, ..*old(self) }),
            r == (FrameRecording { pass_open: false, drawn: false, pass_closed: false }),
    {
        self.frame_live = true;
        FrameRecording { pass_open: false, drawn: false, pass_closed: false }
    }

    /// Close the transient frame scope: the pass must already be closed —
    /// only then can the encoder be finished, submitted and the texture
    /// presented, in that order.  Consuming the recording ends the frame;
    /// nothing of it survives.
    pub fn end_frame(&mut self, recording: FrameRecording)
        requires
            old(self).frame_live,
            recording.pass_closed,
            !recording.pass_open,
        ensures
            *final(self) == (State { frame_live: false, ..*old(self) }),
    {
        let _ = recording;
        self.frame_live = false;
    }

    /// Execute one frame against an acquire outcome.  Before the first
    /// configure this is a safe no-op.  A successful acquire drives the full
    /// scope — open the pass with the fixed clear, draw, close the pass,
    /// finish, submit, present — and every failure is handed back untouched
    /// with nothing recorded.  In every case the state is exactly as it was:
    /// no transient frame resource survives the call.
    pub fn render(&mut self, acquire: Result<(), SurfaceError>) -> (r: Result<
        RenderStatus,
        SurfaceError,
    >)
        requires
            old(self).wf(),
        ensures
            *final(self) == *old(self),
            final(self).wf(),
            r == spec_render_result(*old(self), acquire),
    {
        if !self.surface_configured {
            return Ok(RenderStatus::NotConfigured);
        }
        match acquire {
            Err(e) => Err(e),
            Ok(_) => {
                let mut recording = self.begin_frame();
                let _clear = recording.open_pass();
                let _draw = recording.draw();
                recording.close_pass();
                self.end_frame(recording);
                Ok(RenderStatus::Presented)
            },
        }
    }

    /// Handle one redraw request: render against the acquire outcome and
    /// apply the recovery policy.  A stale surface is reconfigured with the
    /// stored size (which the floor already holds, so the stored state is
    /// unchanged); out-of-memory tells the loop to stop; a timeout changes
    /// nothing.  In continuous-redraw mode another redraw is always
    /// scheduled.
    pub fn request_redraw(&mut self, acquire: Result<(), SurfaceError>) -> (d: Directive)
        requires
            old(self).wf(),
        ensures
            *final(self) == *old(self),
            final(self).wf(),
            d == spec_redraw_directive(*old(self), acquire),
    {
        let schedule_redraw = self.continuous_redraw;
        if !self.surface_configured {
            return Directive {
                outcome: FrameOutcome::Skipped,
                schedule_redraw,
                reconfigure_surface: false,
                exit: false,
            };
        }
        match self.render(acquire) {
            Ok(_) => Directive {
                outcome: FrameOutcome::Presented,
                schedule_redraw,
                reconfigure_surface: false,
                exit: false,
            },
            Err(SurfaceError::Lost) => {
                let stored = self.size;
                self.resize(stored);
                Directive {
                    outcome: FrameOutcome::Stale,
                    schedule_redraw,
                    reconfigure_surface: true,
                    exit: false,
                }
            },
            Err(SurfaceError::Outdated) => {
                let stored = self.size;
                self.resize(stored);
                Directive {
                    outcome: FrameOutcome::Stale,
                    schedule_redraw,
                    reconfigure_surface: true,
                    exit: false,
                }
            },
            Err(SurfaceError::OutOfMemory) => Directive {
                outcome: FrameOutcome::Fatal,
                schedule_redraw,
                reconfigure_surface: false,
                exit: true,
            },
            Err(SurfaceError::Timeout) => Directive {
                outcome: FrameOutcome::TimedOut,
                schedule_redraw,
                reconfigure_surface: false,
                exit: false,
            },
        }
    }

    /// Route one window event: close asks the loop to stop, a resize
    /// configures the surface, a redraw request runs a frame against the
    /// acquire outcome, and everything else is ignored.
    pub fn handle_events(&mut self, event: &EventKind, acquire: Result<(), SurfaceError>) -> (d:
        Directive)
        requires
            old(self).wf(),
        ensures
            *final(self) == spec_event_state(*old(self), *event),
            final(self).wf(),
            d == spec_event_directive(*old(self), *event, acquire),
    {
        match event {
            EventKind::CloseRequested => Directive {
                outcome: FrameOutcome::Skipped,
                schedule_redraw: false,
                reconfigure_surface: false,
                exit: true,
            },
            EventKind::Resized(new_size) => {
                self.resize(*new_size);
                Directive {
                    outcome: FrameOutcome::Skipped,
                    schedule_redraw: false,
                    reconfigure_surface: true,
                    exit: false,
                }
            },
            EventKind::RedrawRequested => self.request_redraw(acquire),
            _ => Directive {
                outcome: FrameOutcome::Skipped,
                schedule_redraw: false,
                reconfigure_surface: false,
                exit: false,
            },
        }
    }
}

/// True when the event is a press of the given physical key.
pub fn is_key_pressed(event: &EventKind, key_code: u32) -> (r: bool)
    ensures
        r == spec_key_pressed(*event, key_code),
{
    match event {
        EventKind::KeyboardInput { pressed, key_code: code } => *pressed && *code == key_code,
        _ => false,
    }
}

/// Configuring twice with the same requested size stores the identical
/// configuration both times and leaves rendering permitted.
pub proof fn lemma_configure_idempotent(s: State, requested: Size)
    ensures
        spec_resize(spec_resize(s, requested), requested) == spec_resize(s, requested),
        spec_resize(s, requested).surface_configured,
{
    crate::surface::lemma_clamp_idempotent(requested);
}

/// An out-of-memory acquire is fatal: the redraw directive reports it as
/// such and tells the event loop to stop.
pub proof fn lemma_fatal_stops_loop(s: State)
    requires
        s.surface_configured,
    ensures
        spec_redraw_directive(s, Err(SurfaceError::OutOfMemory)).exit,
        spec_redraw_directive(s, Err(SurfaceError::OutOfMemory)).outcome == FrameOutcome::Fatal,
{
}

/// Stale-surface recovery: a stale acquire is reported as such with the
/// state untouched, reconfiguring with the stored size changes nothing, and
/// the next successful acquire presents a frame.
pub proof fn lemma_stale_recovery(s: State, stale: SurfaceError)
    requires
        s.wf(),
        s.surface_configured,
        stale == SurfaceError::Lost || stale == SurfaceError::Outdated,
    ensures
        spec_render_result(s, Err(stale)) == Err::<RenderStatus, SurfaceError>(stale),
        spec_resize(s, s.size) == s,
        spec_render_result(spec_resize(s, s.size), Ok(())) == Ok::<RenderStatus, SurfaceError>(
            RenderStatus::Presented,
        ),
{
    assert(clamped_size(s.size) == s.size);
}

} // verus!
