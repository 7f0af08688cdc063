use vstd::prelude::*;
use crate::camera::{Camera, LookAt};
use crate::scalar::{
    Scalar, FORTY_FIVE_BITS, HUNDRED_BITS, MINUS_ONE_BITS, MINUS_THREE_BITS, TENTH_BITS,
    THREE_BITS,
};
use crate::transform::{Transform, TransformOp};

verus! {

/// One vertex of a textured polygon.
#[derive(Clone, Copy, Debug, PartialEq, Eq)]
pub struct Vertex {
    pub position: [Scalar; 3],
    pub tex_coords: [Scalar; 2],
}

/// A flat colour: red, green and blue.
#[derive(Clone, Copy, Debug, PartialEq, Eq)]
pub struct Color {
    pub rgb: [Scalar; 3],
}

impl Color {
    pub fn new(r: Scalar, g: Scalar, b: Scalar) -> (color: Color)
        ensures
            color.rgb == [r, g, b],
    {
        Color { rgb: [r, g, b] }
    }
}

/// A perspective projection, held as the values it is made from.
#[derive(Clone, Copy, Debug, PartialEq, Eq)]
pub struct Projection {
    /// The field of view, in degrees.
    pub fov: Scalar,
    /// The aspect ratio as a fraction: the first number over the second.
    pub aspect: (u32, u32),
    /// The distance of the near clipping plane.
    pub near: Scalar,
    /// The distance of the far clipping plane.
    pub far: Scalar,
}

/// Which faces of a mesh are left out.
#[derive(Clone, Copy, Debug, PartialEq, Eq, Structural)]
pub enum Culling {
    /// None: every face is drawn.
    Disabled,
    /// Those whose vertices run clockwise on the screen.
    Clockwise,
}

/// How the device's pipeline is set for a draw.
#[derive(Clone, Copy, Debug, PartialEq, Eq, Structural)]
pub struct DrawParameters {
    /// Whether a fragment is drawn only where it is nearer than what the
    /// depth buffer holds.
    pub depth_test: bool,
    /// Whether a fragment that is drawn writes its depth.
    pub depth_write: bool,
    pub backface_culling: Culling,
}

/// What the shader is given beside the matrix.
#[derive(Clone, Copy, Debug, PartialEq, Eq)]
pub enum Shading {
    /// A flat tint, for a textured object.
    Tint(Color),
    /// The direction of the light, for a lit object.
    Light([Scalar; 3]),
}

/// One draw call of an object.  The matrix handed to the shader is the
/// product of the projection, the view and the model matrix, in this
/// order; the renderer forms it and submits the call.
#[derive(Clone, Copy, Debug, PartialEq, Eq)]
pub struct DrawCall<'a> {
    pub projection: Projection,
    pub view: LookAt,
    /// The model matrix: the placement of the object that is drawn.
    pub model: &'a Transform,
    pub shading: Shading,
    pub parameters: DrawParameters,
}

/// The projection for a framebuffer `width` pixels wide and `height` high:
/// a field of view of 45 degrees, the height over the width as the aspect
/// ratio, and the clipping planes at a tenth and at 100.
pub open spec fn projection_for(width: u32, height: u32) -> Projection {
    Projection {
        fov: Scalar { bits: FORTY_FIVE_BITS },
        aspect: (height, width),
        near: Scalar { bits: TENTH_BITS },
        far: Scalar { bits: HUNDRED_BITS },
    }
}

/// Computes `projection_for`.
fn projection(dimensions: (u32, u32)) -> (p: Projection)
    ensures
        p == projection_for(dimensions.0, dimensions.1),
{
    Projection {
        fov: Scalar::from_bits(FORTY_FIVE_BITS),
        aspect: (dimensions.1, dimensions.0),
        near: Scalar::from_bits(TENTH_BITS),
        far: Scalar::from_bits(HUNDRED_BITS),
    }
}

/// A textured polygon: its vertices, its tint and its placement.
///
/// The vertex buffer, the shading program and the texture that the device
/// holds for it belong to the renderer.
#[derive(Clone, Debug, PartialEq, Eq)]
pub struct Polygon {
    pub color: Color,
    pub data: Vec<Vertex>,
    pub position: Transform,
}

impl Polygon {
    /// A polygon of the given vertices and tint, placed by the identity.
    pub fn new(data: Vec<Vertex>, color: Color) -> (polygon: Polygon)
        ensures
            polygon.data == data,
            polygon.color == color,
            polygon.position@ == Seq::<TransformOp>::empty(),
    {
        Polygon { color, data, position: Transform::identity() }
    }

    /// The draw call of the polygon on a framebuffer of the size
    /// `dimensions`, width and height, seen through `camera`.
    pub open spec fn draw_call(&self, dimensions: (u32, u32), camera: &Camera) -> DrawCall<'_> {
        DrawCall {
            projection: projection_for(dimensions.0, dimensions.1),
            view: camera.camera,
            model: &self.position,
            shading: Shading::Tint(self.color),
            parameters: DrawParameters {
                depth_test: true,
                depth_write: true,
                backface_culling: Culling::Disabled,
            },
        }
    }

    /// Draws the polygon: returns the one draw call to be submitted.  The
    /// view is the camera's as of its last `update`.  The polygon itself
    /// is left as it is.
    pub fn draw<'a>(&'a self, dimensions: (u32, u32), camera: &Camera) -> (call: DrawCall<'a>)
        ensures
            call == self.draw_call(dimensions, camera),
    {
        DrawCall {
            projection: projection(dimensions),
            view: camera.camera,
            model: &self.position,
            shading: Shading::Tint(self.color),
            parameters: DrawParameters {
                depth_test: true,
                depth_write: true,
                backface_culling: Culling::Disabled,
            },
        }
    }

    pub fn scale(&mut self, x: Scalar, y: Scalar, z: Scalar)
        ensures
            final(self).position@ == old(self).position@.push(TransformOp::Scale(x, y, z)),
            final(self).data == old(self).data,
            final(self).color == old(self).color,
    {
        self.position.scale(x, y, z);
    }

    pub fn translate(&mut self, x: Scalar, y: Scalar, z: Scalar)
        ensures
            final(self).position@ == old(self).position@.push(TransformOp::Translate(x, y, z)),
            final(self).data == old(self).data,
            final(self).color == old(self).color,
    {
        self.position.translate(x, y, z);
    }

    /// Rotates about the x axis by `angle` degrees.
    pub fn rotate_x(&mut self, angle: Scalar)
        ensures
            final(self).position@ == old(self).position@.push(TransformOp::RotateX(angle)),
            final(self).data == old(self).data,
            final(self).color == old(self).color,
    {
        self.position.rotate_x(angle);
    }

    /// Rotates about the y axis by `angle` degrees.
    pub fn rotate_y(&mut self, angle: Scalar)
        ensures
            final(self).position@ == old(self).position@.push(TransformOp::RotateY(angle)),
            final(self).data == old(self).data,
            final(self).color == old(self).color,
    {
        self.position.rotate_y(angle);
    }

    /// Rotates about the z axis by `angle` degrees.
    pub fn rotate_z(&mut self, angle: Scalar)
        ensures
            final(self).position@ == old(self).position@.push(TransformOp::RotateZ(angle)),
            final(self).data == old(self).data,
            final(self).color == old(self).color,
    {
        self.position.rotate_z(angle);
    }
}

/// A lit mesh: the factor that brings it to a common size, the direction
/// of the light and its placement.
///
/// The vertex buffer and the shading program that the device holds for it
/// belong to the renderer.
#[derive(Clone, Debug, PartialEq, Eq)]
pub struct Model {
    /// The factor that scales the mesh to a common size.  It is not
    /// applied to `position`: whoever wants the mesh at that size scales
    /// it.
    pub scale: Scalar,
    pub light: [Scalar; 3],
    pub position: Transform,
}

impl Model {
    /// The direction of the light: the vector (-1, -1, 1).
    pub open spec fn default_light() -> [Scalar; 3] {
        [Scalar { bits: MINUS_ONE_BITS }, Scalar { bits: MINUS_ONE_BITS }, Scalar::one()]
    }

    /// A model with the given normalising factor, lit from the default
    /// direction and placed by the identity.
    pub fn new(scale: Scalar) -> (model: Model)
        ensures
            model.scale == scale,
            model.light == Model::default_light(),
            model.position@ == Seq::<TransformOp>::empty(),
    {
        Model {
            scale,
            light: [
                Scalar::from_bits(MINUS_ONE_BITS),
                Scalar::from_bits(MINUS_ONE_BITS),
                Scalar::one(),
            ],
            position: Transform::identity(),
        }
    }

    /// The view in which a model is drawn: from (0, 0, 3) towards the
    /// origin, with (0, 1, 0) upwards.
    pub open spec fn fixed_view() -> LookAt {
        LookAt {
            eye: [Scalar::zero(), Scalar::zero(), Scalar { bits: THREE_BITS }],
            front: [Scalar::zero(), Scalar::zero(), Scalar { bits: MINUS_THREE_BITS }],
            up: [Scalar::zero(), Scalar::one(), Scalar::zero()],
        }
    }

    /// The draw call of the model on a framebuffer of the size
    /// `dimensions`, width and height.
    pub open spec fn draw_call(&self, dimensions: (u32, u32)) -> DrawCall<'_> {
        DrawCall {
            projection: projection_for(dimensions.0, dimensions.1),
            view: Model::fixed_view(),
            model: &self.position,
            shading: Shading::Light(self.light),
            parameters: DrawParameters {
                depth_test: true,
                depth_write: true,
                backface_culling: Culling::Clockwise,
            },
        }
    }

    /// Draws the model: returns the one draw call to be submitted.  The
    /// model itself is left as it is.
    pub fn draw(&self, dimensions: (u32, u32)) -> (call: DrawCall<'_>)
        ensures
            call == self.draw_call(dimensions),
    {
        DrawCall {
            projection: projection(dimensions),
            view: LookAt {
                eye: [Scalar::zero(), Scalar::zero(), Scalar::from_bits(THREE_BITS)],
                front: [Scalar::zero(), Scalar::zero(), Scalar::from_bits(MINUS_THREE_BITS)],
                up: [Scalar::zero(), Scalar::one(), Scalar::zero()],
            },
            model: &self.position,
            shading: Shading::Light(self.light),
            parameters: DrawParameters {
                depth_test: true,
                depth_write: true,
                backface_culling: Culling::Clockwise,
            },
        }
    }

    pub fn scale(&mut self, x: Scalar, y: Scalar, z: Scalar)
        ensures
            final(self).position@ == old(self).position@.push(TransformOp::Scale(x, y, z)),
            final(self).scale == old(self).scale,
            final(self).light == old(self).light,
    {
        self.position.scale(x, y, z);
    }

    pub fn translate(&mut self, x: Scalar, y: Scalar, z: Scalar)
        ensures
            final(self).position@ == old(self).position@.push(TransformOp::Translate(x, y, z)),
            final(self).scale == old(self).scale,
            final(self).light == old(self).light,
    {
        self.position.translate(x, y, z);
    }

    /// Rotates about the x axis by `angle` degrees.
    pub fn rotate_x(&mut self, angle: Scalar)
        ensures
            final(self).position@ == old(self).position@.push(TransformOp::RotateX(angle)),
            final(self).scale == old(self).scale,
            final(self).light == old(self).light,
    {
        self.position.rotate_x(angle);
    }

    /// Rotates about the y axis by `angle` degrees.
    pub fn rotate_y(&mut self, angle: Scalar)
        ensures
            final(self).position@ == old(self).position@.push(TransformOp::RotateY(angle)),
            final(self).scale == old(self).scale,
            final(self).light == old(self).light,
    {
        self.position.rotate_y(angle);
    }

    /// Rotates about the z axis by `angle` degrees.
    pub fn rotate_z(&mut self, angle: Scalar)
        ensures
            final(self).position@ == old(self).position@.push(TransformOp::RotateZ(angle)),
            final(self).scale == old(self).scale,
            final(self).light == old(self).light,
    {
        self.position.rotate_z(angle);
    }
}

} // verus!
