//! The transient per-frame recording scope.
//!
//! One frame is the triple view / encoder / pass; the pass borrows the
//! encoder and must be closed before the encoder can be finished into a
//! submittable buffer.  `FrameRecording` models that scope: it is handed out
//! by `State::begin_frame`, its methods enforce the pass ordering, and
//! `State::end_frame` consumes it, so no part of a frame outlives the call
//! that made it.

use vstd::prelude::*;

verus! {

/// The fixed clear color of the single render pass, in thousandths per
/// channel (a dark desaturated blue, fully opaque).
#[derive(Clone, Copy, Debug, PartialEq, Eq, Structural)]
pub struct ClearColor {
    pub red_milli: u32,
    pub green_milli: u32,
    pub blue_milli: u32,
    pub alpha_milli: u32,
}

/// The clear color every frame uses.
pub open spec fn spec_clear_color() -> ClearColor {
    ClearColor { red_milli: 100, green_milli: 200, blue_milli: 300, alpha_milli: 1000 }
}

/// The fixed clear color: R 0.100, G 0.200, B 0.300, A 1.000.
pub fn clear_color() -> (r: ClearColor)
    ensures
        r == spec_clear_color(),
{
    ClearColor { red_milli: 100, green_milli: 200, blue_milli: 300, alpha_milli: 1000 }
}

/// The single non-indexed draw of a frame.
#[derive(Clone, Copy, Debug, PartialEq, Eq, Structural)]
pub struct DrawCall {
    pub first_vertex: u32,
    pub vertex_count: u32,
    pub first_instance: u32,
    pub instance_count: u32,
}

/// The draw call every frame issues.
pub open spec fn spec_draw_call() -> DrawCall {
    DrawCall { first_vertex: 0, vertex_count: 3, first_instance: 0, instance_count: 1 }
}

/// The fixed draw call: three vertices, one instance.
pub fn draw_call() -> (r: DrawCall)
    ensures
        r == spec_draw_call(),
{
    DrawCall { first_vertex: 0, vertex_count: 3, first_instance: 0, instance_count: 1 }
}

/// The recording scope of one frame.  `pass_open` and `pass_closed` track
/// the single render pass inside the encoder's recording; `drawn` tracks the
/// one draw call.
#[derive(Clone, Copy, Debug, PartialEq, Eq, Structural)]
pub struct FrameRecording {
    pub pass_open: bool,
    pub drawn: bool,
    pub pass_closed: bool,
}

impl FrameRecording {
    /// Open the frame's single render pass, which clears the target.  The
    /// pass can be opened once only.
    pub fn open_pass(&mut self) -> (r: ClearColor)
        requires
            !old(self).pass_open,
            !old(self).pass_closed,
        ensures
            *final(self) == (FrameRecording { pass_open: true, ..*old(self) }),
            r == spec_clear_color(),
    {
        self.pass_open = true;
        clear_color()
    }

    /// Issue the frame's draw call; the pass must be open.
    pub fn draw(&mut self) -> (r: DrawCall)
        requires
            old(self).pass_open,
        ensures
            *final(self) == (FrameRecording { drawn: true, ..*old(self) }),
            r == spec_draw_call(),
    {
        self.drawn = true;
        draw_call()
    }

    /// Close the pass.  Only a closed pass lets the encoder be finished:
    /// `State::end_frame` refuses a recording whose pass is still open.
    pub fn close_pass(&mut self)
        requires
            old(self).pass_open,
        ensures
            *final(self) == (FrameRecording { pass_open: false, pass_closed: true, ..*old(self) }),
    {
        self.pass_open = false;
        self.pass_closed = true;
    }
}

} // verus!
