use vstd::prelude::*;
use crate::clock::{elapsed, since};
use crate::context::Context;
use crate::graphics::Polygon;
use crate::mouse::MouseInput;
use crate::scalar::Scalar;
use crate::transform::TransformOp;

verus! {

/// What the rotation panel holds: for each axis, whether the target is
/// rotated about it and by how many degrees each time the overlay is
/// drawn.
#[derive(Clone, Copy, Debug, PartialEq, Eq)]
pub struct PolygonState {
    pub x: bool,
    pub y: bool,
    pub z: bool,
    pub x_speed: Scalar,
    pub y_speed: Scalar,
    pub z_speed: Scalar,
}

impl Default for PolygonState {
    fn default() -> (state: PolygonState)
        ensures
            state == PolygonState::initial(),
    {
        PolygonState {
            x: false,
            y: false,
            z: false,
            x_speed: Scalar::zero(),
            y_speed: Scalar::zero(),
            z_speed: Scalar::zero(),
        }
    }
}

impl PolygonState {
    /// The panel before it is touched: no axis enabled, every speed zero.
    pub open spec fn initial() -> PolygonState {
        PolygonState {
            x: false,
            y: false,
            z: false,
            x_speed: Scalar::zero(),
            y_speed: Scalar::zero(),
            z_speed: Scalar::zero(),
        }
    }

    /// The rotations that one drawing of the overlay applies: for each
    /// enabled axis one rotation by its speed, about x first, then y, then
    /// z.
    pub open spec fn rotations(self) -> Seq<TransformOp> {
        let about_x = if self.x {
            seq![TransformOp::RotateX(self.x_speed)]
        } else {
            Seq::empty()
        };
        let about_y = if self.y {
            seq![TransformOp::RotateY(self.y_speed)]
        } else {
            Seq::empty()
        };
        let about_z = if self.z {
            seq![TransformOp::RotateZ(self.z_speed)]
        } else {
            Seq::empty()
        };
        about_x + about_y + about_z
    }

    /// Applies the panel to `polygon`: rotates it once about each enabled
    /// axis by that axis's speed in degrees, however much time has passed
    /// since the last call.
    pub fn update(&self, polygon: &mut Polygon)
        ensures
            final(polygon).position@ == old(polygon).position@ + self.rotations(),
            final(polygon).data == old(polygon).data,
            final(polygon).color == old(polygon).color,
    {
        if self.x {
            polygon.rotate_x(self.x_speed);
        }
        if self.y {
            polygon.rotate_y(self.y_speed);
        }
        if self.z {
            polygon.rotate_z(self.z_speed);
        }
        assert(polygon.position@ =~= old(polygon).position@ + self.rotations());
    }
}

/// With the x axis alone enabled, one drawing of the overlay turns the
/// target about x by exactly the x speed, once.
pub proof fn lemma_x_axis_alone(state: PolygonState, before: Seq<TransformOp>)
    requires
        state.x,
        !state.y,
        !state.z,
    ensures
        state.rotations() == seq![TransformOp::RotateX(state.x_speed)],
        before + state.rotations() == before.push(TransformOp::RotateX(state.x_speed)),
{
    assert(state.rotations() =~= seq![TransformOp::RotateX(state.x_speed)]);
    assert(before + state.rotations() =~= before.push(TransformOp::RotateX(state.x_speed)));
}

/// With no axis enabled, drawing the overlay leaves the target as it is.
pub proof fn lemma_no_axis(state: PolygonState, before: Seq<TransformOp>)
    requires
        !state.x,
        !state.y,
        !state.z,
    ensures
        before + state.rotations() == before,
{
    assert(before + state.rotations() =~= before);
}

/// The cursor shape that the interface backend asks for.
#[derive(Clone, Copy, Debug, PartialEq, Eq, Structural)]
pub enum UiCursor {
    /// No cursor at all.
    Absent,
    Arrow,
    TextInput,
    ResizeAll,
    ResizeNS,
    ResizeEW,
    ResizeNESW,
    ResizeNWSE,
    Hand,
}

/// A cursor shape of the window system.
#[derive(Clone, Copy, Debug, PartialEq, Eq, Structural)]
pub enum OsCursor {
    Arrow,
    Text,
    Move,
    NsResize,
    EwResize,
    NeswResize,
    NwseResize,
    Hand,
}

/// What is to be done with the window system's cursor for one frame.
#[derive(Clone, Copy, Debug, PartialEq, Eq, Structural)]
pub enum CursorDirective {
    /// Hide the cursor over the window.
    Hide,
    /// Show the cursor in the given shape.
    Show(OsCursor),
}

/// The window system's shape for a shape that the interface backend asks
/// for; none for `UiCursor::Absent`.
pub open spec fn os_cursor(requested: UiCursor) -> Option<OsCursor> {
    match requested {
        UiCursor::Absent => None,
        UiCursor::Arrow => Some(OsCursor::Arrow),
        UiCursor::TextInput => Some(OsCursor::Text),
        UiCursor::ResizeAll => Some(OsCursor::Move),
        UiCursor::ResizeNS => Some(OsCursor::NsResize),
        UiCursor::ResizeEW => Some(OsCursor::EwResize),
        UiCursor::ResizeNESW => Some(OsCursor::NeswResize),
        UiCursor::ResizeNWSE => Some(OsCursor::NwseResize),
        UiCursor::Hand => Some(OsCursor::Hand),
    }
}

/// The directive for a frame in which the interface backend draws the
/// cursor itself (`draw_cursor`) or not, and asks for the shape
/// `requested`: the window system's cursor is hidden where the backend
/// draws its own or asks for none, and shown in the matching shape
/// otherwise.
pub open spec fn cursor_directive_of(draw_cursor: bool, requested: UiCursor) -> CursorDirective {
    match os_cursor(requested) {
        Some(shape) if !draw_cursor => CursorDirective::Show(shape),
        _ => CursorDirective::Hide,
    }
}

/// What the interface backend is given at the start of the overlay's
/// frame.
#[derive(Clone, Copy, Debug, PartialEq, Eq)]
pub struct OverlayInput {
    /// The nanoseconds since the overlay's last frame.
    pub delta: u64,
    pub mouse: MouseInput,
}

/// What the panels hold once the interface backend has run them for a
/// frame: the values that the user has left in the editor of the
/// background colour and in the rotation panel.
#[derive(Clone, Copy, Debug, PartialEq, Eq)]
pub struct PanelValues {
    pub background_color: [Scalar; 4],
    pub polygon_state: PolygonState,
}

/// The debug overlay: the time of its last frame and the state of its
/// rotation panel.
///
/// Times are nanoseconds on a clock of the driver that never runs
/// backwards.  The overlay keeps its own time, apart from the frame
/// loop's.
#[derive(Clone, Copy, Debug, PartialEq, Eq)]
pub struct Overlay {
    pub last_frame: u64,
    pub polygon_state: PolygonState,
}

impl Overlay {
    /// An overlay that is first drawn from the time `now` on, with an
    /// untouched rotation panel.
    pub fn new(now: u64) -> (overlay: Overlay)
        ensures
            overlay.last_frame == now,
            overlay.polygon_state == PolygonState::initial(),
    {
        Overlay { last_frame: now, polygon_state: PolygonState::default() }
    }

    /// Begins a frame at the time `now`: returns the nanoseconds that
    /// have passed since the last frame and takes `now` as the time of the
    /// last frame.
    pub fn tick(&mut self, now: u64) -> (delta: u64)
        ensures
            delta == elapsed(old(self).last_frame, now),
            final(self).last_frame == now,
            final(self).polygon_state == old(self).polygon_state,
    {
        let delta = since(self.last_frame, now);
        self.last_frame = now;
        delta
    }

    /// Begins the overlay's frame at the time `now`: measures the time
    /// since its last frame and hands the pointer state on, which consumes
    /// the scroll amount.
    pub fn begin<D>(&mut self, ctx: &mut Context<D>, now: u64) -> (input: OverlayInput)
        ensures
            final(ctx).device == old(ctx).device,
            input.delta == elapsed(old(self).last_frame, now),
            input.mouse == old(ctx).mouse_context.input(),
            final(self).last_frame == now,
            final(self).polygon_state == old(self).polygon_state,
            final(ctx).mouse_context.pos == old(ctx).mouse_context.pos,
            final(ctx).mouse_context.pressed == old(ctx).mouse_context.pressed,
            final(ctx).mouse_context.wheel == Scalar::zero(),
            final(ctx).background_color == old(ctx).background_color,
    {
        let delta = self.tick(now);
        let mouse = ctx.mouse_context.update();
        OverlayInput { delta, mouse }
    }

    /// Ends the overlay's frame, after the interface backend has run the
    /// panels: takes over what they hold and applies the rotation panel to
    /// `square`, which is turned once about each enabled axis by that axis's
    /// speed in degrees, however much time has passed.
    pub fn draw<D>(&mut self, ctx: &mut Context<D>, panels: PanelValues, square: &mut Polygon)
        ensures
            final(ctx).device == old(ctx).device,
            final(ctx).background_color == panels.background_color,
            final(ctx).mouse_context == old(ctx).mouse_context,
            final(self).polygon_state == panels.polygon_state,
            final(self).last_frame == old(self).last_frame,
            final(square).position@ == old(square).position@ + panels.polygon_state.rotations(),
            final(square).data == old(square).data,
            final(square).color == old(square).color,
    {
        ctx.background_color = panels.background_color;
        self.polygon_state = panels.polygon_state;
        self.polygon_state.update(square);
    }

    /// Resolves what the interface backend asks of the cursor into a
    /// directive for the window system.
    pub fn cursor_directive(draw_cursor: bool, requested: UiCursor) -> (directive: CursorDirective)
        ensures
            directive == cursor_directive_of(draw_cursor, requested),
    {
        if draw_cursor {
            return CursorDirective::Hide;
        }
        match requested {
            UiCursor::Absent => CursorDirective::Hide,
            UiCursor::Arrow => CursorDirective::Show(OsCursor::Arrow),
            UiCursor::TextInput => CursorDirective::Show(OsCursor::Text),
            UiCursor::ResizeAll => CursorDirective::Show(OsCursor::Move),
            UiCursor::ResizeNS => CursorDirective::Show(OsCursor::NsResize),
            UiCursor::ResizeEW => CursorDirective::Show(OsCursor::EwResize),
            UiCursor::ResizeNESW => CursorDirective::Show(OsCursor::NeswResize),
            UiCursor::ResizeNWSE => CursorDirective::Show(OsCursor::NwseResize),
            UiCursor::Hand => CursorDirective::Show(OsCursor::Hand),
        }
    }
}

} // verus!
