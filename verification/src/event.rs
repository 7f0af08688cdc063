use vstd::prelude::*;
use crate::context::Context;
use crate::error::Issue;

verus! {

/// A button of the pointing device.
#[derive(Clone, Copy, Debug, PartialEq, Eq, Structural)]
pub enum MouseButton {
    Left,
    Right,
    Middle,
    /// Any further button, by its number.
    Other(u8),
}

/// A key of the keyboard, as far as the frame loop tells keys apart.
#[derive(Clone, Copy, Debug, PartialEq, Eq, Structural)]
pub enum KeyCode {
    W,
    A,
    S,
    D,
    /// Any other key, by the number the window system gives it.
    Other(u32),
}

/// One input event, as the window system's event source reports it.
#[derive(Clone, Copy, Debug, PartialEq, Eq, Structural)]
pub enum Event {
    /// The user asked for the window to be closed.
    CloseRequested,
    /// The pointer moved to a position given in the application's logical
    /// pixels.
    CursorMoved { x: i32, y: i32 },
    /// A mouse button went down (`pressed`) or up.
    MouseInput { button: MouseButton, pressed: bool },
    /// A key changed its state; `key` is `None` where the window system
    /// could not resolve it.
    KeyboardInput { key: Option<KeyCode> },
    /// Any event that the frame loop does not react to.
    Other,
}

/// What a scene does in the phases of a frame.  The frame loop calls
/// `update` and `draw` once in each iteration, `update` first, and
/// `key_down_event` for each key that the window system reports, while it
/// takes in the events.
///
/// An error from `update` or `draw` ends the loop.
pub trait EventHandler {
    /// The device that the context carries.
    type Device;

    /// The framebuffer that is drawn on.
    type Target;

    /// Moves the scene on by one frame.
    fn update(&mut self, ctx: &mut Context<Self::Device>) -> Issue<()>;

    /// Draws the scene on `target`, which has been cleared to the
    /// background colour.
    fn draw(&mut self, ctx: &mut Context<Self::Device>, target: &mut Self::Target) -> Issue<()>;

    /// Does nothing unless the scene says otherwise.
    #[allow(unused_variables)]
    fn key_down_event(&mut self, ctx: &mut Context<Self::Device>, key: KeyCode) {
    }
}

/// What a key asks of the scene.
#[derive(Clone, Copy, Debug, PartialEq, Eq, Structural)]
pub enum KeyAction {
    /// Move the camera one step along its front vector.
    Forward,
    /// Move the camera one step against its front vector.
    Backward,
    /// Move the camera one step sideways, along the normalised cross
    /// product of its front and up vectors.
    Strafe,
    /// Shift the square a tenth to the left.
    ShiftSquare,
}

/// The action bound to `key`, if any: `W` moves forward, `S` backward, `A`
/// strafes and `D` shifts the square.
pub open spec fn key_action_of(key: KeyCode) -> Option<KeyAction> {
    match key {
        KeyCode::W => Some(KeyAction::Forward),
        KeyCode::S => Some(KeyAction::Backward),
        KeyCode::A => Some(KeyAction::Strafe),
        KeyCode::D => Some(KeyAction::ShiftSquare),
        KeyCode::Other(_) => None,
    }
}

/// Looks up the action bound to `key`.
pub fn key_action(key: KeyCode) -> (action: Option<KeyAction>)
    ensures
        action == key_action_of(key),
{
    match key {
        KeyCode::W => Some(KeyAction::Forward),
        KeyCode::S => Some(KeyAction::Backward),
        KeyCode::A => Some(KeyAction::Strafe),
        KeyCode::D => Some(KeyAction::ShiftSquare),
        KeyCode::Other(_) => None,
    }
}

} // verus!
