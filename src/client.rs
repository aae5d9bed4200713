//! The per-frame orchestration: the animation state and the commands that
//! one frame issues to the two shader programs.
use vstd::prelude::*;

use crate::animation::{state_at, AnimationState, DEFAULT_HEIGHT, DEFAULT_WIDTH};
use crate::geometry::Rect;

verus! {

/// How far the gradient rectangle lies inside the flat one, on every edge.
pub const INSET_MARGIN: u32 = 20;

/// A colour with 8 bits per channel.
#[derive(Clone, Copy, Debug, PartialEq, Eq, Structural)]
pub struct Rgba {
    pub r: u8,
    pub g: u8,
    pub b: u8,
    pub a: u8,
}

/// What a program paints over its quad.
#[derive(Clone, Copy, Debug, PartialEq, Eq, Structural)]
pub enum Shading {
    /// One colour over the whole quad.
    Flat { color: Rgba },
    /// From `from` at the bottom edge to `to` at the top edge.
    Gradient { from: Rgba, to: Rgba },
}

pub open spec fn flat_shading() -> Shading {
    Shading::Flat { color: Rgba { r: 128, g: 204, b: 51, a: 255 } }
}

pub open spec fn gradient_shading() -> Shading {
    Shading::Gradient {
        from: Rgba { r: 230, g: 64, b: 32, a: 255 },
        to: Rgba { r: 40, g: 90, b: 230, a: 255 },
    }
}

/// One draw call: the unit quad, placed on `rect` of a canvas of the given
/// size, painted as `shading` says.
#[derive(Clone, Copy, Debug, PartialEq, Eq, Structural)]
pub struct DrawCall {
    pub shading: Shading,
    pub rect: Rect,
    pub canvas_height: u32,
    pub canvas_width: u32,
}

/// One command of a frame, in the order it is to be carried out.
#[derive(Clone, Copy, Debug, PartialEq, Eq, Structural)]
pub enum RenderCommand {
    /// Clear the colour and depth buffers.
    Clear,
    Draw(DrawCall),
}

impl RenderCommand {
    pub open spec fn is_draw(self) -> bool {
        self is Draw
    }
}

/// The control rectangle of a state, in signed pixels.
pub open spec fn control_rect(s: AnimationState) -> Rect {
    Rect {
        bottom: s.control_bottom as i64,
        top: s.control_top as i64,
        left: s.control_left as i64,
        right: s.control_right as i64,
    }
}

/// `r` moved inwards by `INSET_MARGIN` on every edge.
pub open spec fn inset_rect(r: Rect) -> Rect {
    Rect {
        bottom: (r.bottom + INSET_MARGIN) as i64,
        top: (r.top - INSET_MARGIN) as i64,
        left: (r.left + INSET_MARGIN) as i64,
        right: (r.right - INSET_MARGIN) as i64,
    }
}

/// The commands of the frame drawn for state `s`: a clear, the flat program
/// over the control rectangle, then the gradient program over that
/// rectangle inset by `INSET_MARGIN`.
pub open spec fn frame_for(s: AnimationState) -> Seq<RenderCommand> {
    seq![
        RenderCommand::Clear,
        RenderCommand::Draw(DrawCall {
            shading: flat_shading(),
            rect: control_rect(s),
            canvas_height: s.canvas_height,
            canvas_width: s.canvas_width,
        }),
        RenderCommand::Draw(DrawCall {
            shading: gradient_shading(),
            rect: inset_rect(control_rect(s)),
            canvas_height: s.canvas_height,
            canvas_width: s.canvas_width,
        }),
    ]
}

/// The number of draw calls among `cmds`.
pub open spec fn draw_count(cmds: Seq<RenderCommand>) -> nat
    decreases cmds.len(),
{
    if cmds.len() == 0 {
        0
    } else {
        draw_count(cmds.drop_last()) + if cmds.last().is_draw() { 1nat } else { 0nat }
    }
}

/// The client: owns the animation state and turns it into frames.
pub struct MyClient {
    pub state: AnimationState,
}

impl MyClient {
    /// A client whose state is the initial one of `AnimationState::new`.
    pub fn new() -> (r: MyClient)
        ensures
            r.state == state_at(0, DEFAULT_HEIGHT as int, DEFAULT_WIDTH as int),
            r.state.wf(),
            r.state.control_bottom < r.state.control_top,
            r.state.control_left < r.state.control_right,
    {
        MyClient { state: AnimationState::new() }
    }

    /// Recomputes the animation state from the time (in milliseconds) and
    /// the canvas size (in pixels).
    pub fn update(&mut self, time: u64, height: u32, width: u32)
        ensures
            final(self).state == state_at(time as int, height as int, width as int),
            final(self).state.wf(),
    {
        self.state.update(time, height, width);
    }

    /// The commands of one frame for the current state.
    pub fn render(&self) -> (r: Vec<RenderCommand>)
        ensures
            r@ == frame_for(self.state),
    {
        let s = self.state.get_curr_state();
        let outer = Rect {
            bottom: s.control_bottom as i64,
            top: s.control_top as i64,
            left: s.control_left as i64,
            right: s.control_right as i64,
        };
        let inner = outer.inset(INSET_MARGIN);
        let cmds = vec![
            RenderCommand::Clear,
            RenderCommand::Draw(DrawCall {
                shading: flat(),
                rect: outer,
                canvas_height: s.canvas_height,
                canvas_width: s.canvas_width,
            }),
            RenderCommand::Draw(DrawCall {
                shading: gradient(),
                rect: inner,
                canvas_height: s.canvas_height,
                canvas_width: s.canvas_width,
            }),
        ];
        assert(cmds@ =~= frame_for(self.state));
        cmds
    }
}

/// The shading of the outer rectangle.
pub fn flat() -> (r: Shading)
    ensures
        r == flat_shading(),
{
    Shading::Flat { color: Rgba { r: 128, g: 204, b: 51, a: 255 } }
}

/// The shading of the inner rectangle.
pub fn gradient() -> (r: Shading)
    ensures
        r == gradient_shading(),
{
    Shading::Gradient {
        from: Rgba { r: 230, g: 64, b: 32, a: 255 },
        to: Rgba { r: 40, g: 90, b: 230, a: 255 },
    }
}

/// Every frame issues exactly two draw calls, and the second one's edges lie
/// `INSET_MARGIN` pixels inside the first one's, edge by edge.
pub proof fn lemma_frame_two_nested_draws(s: AnimationState)
    ensures
        draw_count(frame_for(s)) == 2,
        ({
            let f = frame_for(s);
            let a = f[1]->Draw_0.rect;
            let b = f[2]->Draw_0.rect;
            &&& b.bottom == a.bottom + INSET_MARGIN
            &&& b.top == a.top - INSET_MARGIN
            &&& b.left == a.left + INSET_MARGIN
            &&& b.right == a.right - INSET_MARGIN
        }),
{
    let f = frame_for(s);
    let f1 = f.drop_last();
    let f2 = f1.drop_last();
    let f3 = f2.drop_last();
    assert(f3.len() == 0);
    assert(draw_count(f3) == 0);
    assert(f2.last() == RenderCommand::Clear);
    assert(!f2.last().is_draw());
    assert(draw_count(f2) == 0);
    assert(f1.last() == f[1]);
    assert(draw_count(f1) == 1);
    assert(f.last() == f[2]);
}

} // verus!
