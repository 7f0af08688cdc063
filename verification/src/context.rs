use vstd::prelude::*;
use crate::mouse::Mouse;
use crate::scalar::Scalar;

verus! {

/// The one value that every phase of a frame is handed: the device, what
/// the input events left behind, and how the display is to be cleared.
///
/// `D` is the device with all that belongs to it: the window, the
/// interface backend and its renderer.  The library carries it through
/// untouched.
#[derive(Clone, Copy, Debug, PartialEq, Eq)]
pub struct Context<D> {
    pub device: D,
    pub mouse_context: Mouse,
    /// Red, green, blue and alpha of the colour that a frame is cleared to.
    pub background_color: [Scalar; 4],
}

impl<D> Context<D> {
    /// The context at startup, over `device`.
    pub open spec fn initial(device: D) -> Context<D> {
        Context {
            device,
            mouse_context: Mouse {
                pos: (0i32, 0i32),
                pressed: (false, false, false),
                wheel: Scalar::zero(),
            },
            background_color: [Scalar::zero(), Scalar::zero(), Scalar::zero(), Scalar::one()],
        }
    }

    /// A context over `device` with an idle pointer and an opaque black
    /// background.
    pub fn new(device: D) -> (ctx: Context<D>)
        ensures
            ctx == Context::initial(device),
    {
        Context {
            device,
            mouse_context: Mouse::default(),
            background_color: [Scalar::zero(), Scalar::zero(), Scalar::zero(), Scalar::one()],
        }
    }

    /// Sets the colour that the following frames are cleared to.
    pub fn set_background_color(&mut self, r: Scalar, g: Scalar, b: Scalar, a: Scalar)
        ensures
            final(self).background_color == [r, g, b, a],
            final(self).mouse_context == old(self).mouse_context,
            final(self).device == old(self).device,
    {
        self.background_color = [r, g, b, a];
    }
}

} // verus!
