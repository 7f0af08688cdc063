use vstd::prelude::*;
use crate::scalar::{Scalar, MINUS_ONE_BITS, THREE_BITS};

verus! {

/// A view matrix, held as the vectors it is made from: the matrix that
/// looks from `eye` towards the point `eye + front`, with `up` pointing
/// upwards.  The renderer forms the matrix.
#[derive(Clone, Copy, Debug, PartialEq, Eq)]
pub struct LookAt {
    pub eye: [Scalar; 3],
    pub front: [Scalar; 3],
    pub up: [Scalar; 3],
}

/// Where the viewer stands and looks, with the view made from it.
///
/// The position and the vectors are moved from outside: forwards by
/// adding the front vector to the position, backwards by taking it away,
/// sideways by adding the normalised cross product of the front and the up
/// vector.  The view follows only when `update` is called: until then it
/// is the view of the last call, and whoever draws with it draws the old
/// view.
#[derive(Clone, Copy, Debug, PartialEq, Eq)]
pub struct Camera {
    /// The view as of the last call of `update`.
    pub camera: LookAt,
    pub camera_pos: [Scalar; 3],
    pub camera_front: [Scalar; 3],
    pub camera_up: [Scalar; 3],
}

impl Camera {
    /// The view from where the camera stands now.
    pub open spec fn looking(self) -> LookAt {
        LookAt { eye: self.camera_pos, front: self.camera_front, up: self.camera_up }
    }

    /// Whether the view is the one from where the camera stands now.
    pub open spec fn is_fresh(self) -> bool {
        self.camera == self.looking()
    }

    /// The camera at startup: at (0, 0, 3), looking along (0, 0, -1), with
    /// (0, 1, 0) upwards, and its view made from these.
    pub open spec fn initial() -> Camera {
        let camera_pos = [Scalar::zero(), Scalar::zero(), Scalar { bits: THREE_BITS }];
        let camera_front = [Scalar::zero(), Scalar::zero(), Scalar { bits: MINUS_ONE_BITS }];
        let camera_up = [Scalar::zero(), Scalar::one(), Scalar::zero()];
        Camera {
            camera: LookAt { eye: camera_pos, front: camera_front, up: camera_up },
            camera_pos,
            camera_front,
            camera_up,
        }
    }

    /// The camera after `update`.
    pub open spec fn updated(self) -> Camera {
        Camera { camera: self.looking(), ..self }
    }

    /// A camera at its place of startup, with a fresh view.
    pub fn new() -> (camera: Camera)
        ensures
            camera == Camera::initial(),
            camera.is_fresh(),
    {
        let camera_pos = [Scalar::zero(), Scalar::zero(), Scalar::from_bits(THREE_BITS)];
        let camera_front = [Scalar::zero(), Scalar::zero(), Scalar::from_bits(MINUS_ONE_BITS)];
        let camera_up = [Scalar::zero(), Scalar::one(), Scalar::zero()];
        Camera {
            camera: LookAt { eye: camera_pos, front: camera_front, up: camera_up },
            camera_pos,
            camera_front,
            camera_up,
        }
    }

    /// Makes the view anew from the position, the front and the up vector
    /// as they are now.
    pub fn update(&mut self)
        ensures
            *final(self) == old(self).updated(),
            final(self).is_fresh(),
    {
        self.camera = LookAt { eye: self.camera_pos, front: self.camera_front, up: self.camera_up };
    }
}

/// After the position has been set to `eye`, `update` gives the view that
/// a look-at made afresh from `eye` and the unchanged front and up vectors
/// gives, whatever the view was before.
pub proof fn lemma_update_looks_from_new_eye(camera: Camera, eye: [Scalar; 3])
    ensures
        (Camera { camera_pos: eye, ..camera }).updated().camera == (LookAt {
            eye,
            front: camera.camera_front,
            up: camera.camera_up,
        }),
        (Camera { camera_pos: eye, ..camera }).updated().camera_front == camera.camera_front,
        (Camera { camera_pos: eye, ..camera }).updated().camera_up == camera.camera_up,
{
}

} // verus!
