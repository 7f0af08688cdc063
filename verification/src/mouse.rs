use vstd::prelude::*;
use crate::scalar::Scalar;

verus! {

/// Pointer state gathered between two frames.
#[derive(Clone, Copy, Debug, PartialEq, Eq)]
pub struct Mouse {
    /// Position in the application's logical pixels.
    pub pos: (i32, i32),
    /// Whether the left, the right and the middle button are held down.
    pub pressed: (bool, bool, bool),
    /// Scroll amount gathered since it was last consumed.
    pub wheel: Scalar,
}

/// What the interface backend is told about the pointer for one frame.
#[derive(Clone, Copy, Debug, PartialEq, Eq)]
pub struct MouseInput {
    pub pos: (i32, i32),
    /// Left, right, middle and two further buttons that are never held.
    pub down: [bool; 5],
    pub wheel: Scalar,
}

impl Default for Mouse {
    fn default() -> (m: Mouse)
        ensures
            m.pos == (0i32, 0i32),
            m.pressed == (false, false, false),
            m.wheel == Scalar::zero(),
    {
        Mouse { pos: (0, 0), pressed: (false, false, false), wheel: Scalar::zero() }
    }
}

impl Mouse {
    /// What `update` reports for a pointer in state `self`.
    pub open spec fn input(self) -> MouseInput {
        MouseInput {
            pos: self.pos,
            down: [self.pressed.0, self.pressed.1, self.pressed.2, false, false],
            wheel: self.wheel,
        }
    }

    /// Hands the pointer state on for one frame and consumes the scroll
    /// amount: it reads back as zero until it is set again.
    pub fn update(&mut self) -> (input: MouseInput)
        ensures
            input == old(self).input(),
            final(self).pos == old(self).pos,
            final(self).pressed == old(self).pressed,
            final(self).wheel == Scalar::zero(),
    {
        let input = MouseInput {
            pos: self.pos,
            down: [self.pressed.0, self.pressed.1, self.pressed.2, false, false],
            wheel: self.wheel,
        };
        self.wheel = Scalar::zero();
        input
    }
}

} // verus!
