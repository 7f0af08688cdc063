use nalgebra_glm as glm;
use render_core::camera::{Camera, LookAt};
use render_core::graphics::{
    Color, Culling, DrawCall, DrawParameters, Model, Polygon, Projection, Shading, Vertex,
};
use render_core::scalar::{
    Scalar, FORTY_FIVE_BITS, HUNDRED_BITS, MINUS_ONE_BITS, MINUS_THREE_BITS, ONE_BITS,
    TENTH_BITS, THREE_BITS,
};
use render_core::transform::{Transform, TransformOp};

fn s(value: f32) -> Scalar {
    Scalar::from_bits(value.to_bits())
}

fn f(scalar: Scalar) -> f32 {
    f32::from_bits(scalar.to_bits())
}

fn v(scalars: [Scalar; 3]) -> glm::Vec3 {
    glm::vec3(f(scalars[0]), f(scalars[1]), f(scalars[2]))
}

fn view_matrix(view: &LookAt) -> glm::Mat4 {
    glm::look_at_rh(&v(view.eye), &(v(view.eye) + v(view.front)), &v(view.up))
}

fn projection_matrix(projection: &Projection) -> glm::Mat4 {
    let aspect = projection.aspect.0 as f32 / projection.aspect.1 as f32;
    glm::perspective(
        aspect,
        f(projection.fov).to_radians(),
        f(projection.near),
        f(projection.far),
    )
}

fn model_matrix(transform: &Transform) -> glm::Mat4 {
    let mut model: glm::Mat4 = glm::identity();
    for op in &transform.ops {
        model = match *op {
            TransformOp::Scale(x, y, z) => glm::scale(&model, &glm::vec3(f(x), f(y), f(z))),
            TransformOp::Translate(x, y, z) => {
                glm::translate(&model, &glm::vec3(f(x), f(y), f(z)))
            }
            TransformOp::RotateX(angle) => glm::rotate_x(&model, f(angle).to_radians()),
            TransformOp::RotateY(angle) => glm::rotate_y(&model, f(angle).to_radians()),
            TransformOp::RotateZ(angle) => glm::rotate_z(&model, f(angle).to_radians()),
        };
    }
    model
}

/// Projection times view times model, as the shader is given it.
fn mvp(call: &DrawCall) -> glm::Mat4 {
    projection_matrix(&call.projection) * view_matrix(&call.view) * model_matrix(call.model)
}

fn triangle() -> Polygon {
    let data = vec![
        Vertex { position: [s(-0.5), s(-0.5), s(0.0)], tex_coords: [s(0.0), s(0.0)] },
        Vertex { position: [s(0.5), s(-0.5), s(0.0)], tex_coords: [s(1.0), s(0.0)] },
        Vertex { position: [s(0.0), s(0.5), s(0.0)], tex_coords: [s(0.5), s(1.0)] },
    ];
    Polygon::new(data, Color::new(s(1.0), s(0.0), s(0.0)))
}

#[test]
fn named_bit_patterns_are_the_numbers_they_are_named_after() {
    assert_eq!(f32::from_bits(ONE_BITS), 1.0);
    assert_eq!(f32::from_bits(MINUS_ONE_BITS), -1.0);
    assert_eq!(f32::from_bits(THREE_BITS), 3.0);
    assert_eq!(f32::from_bits(MINUS_THREE_BITS), -3.0);
    assert_eq!(f32::from_bits(FORTY_FIVE_BITS), 45.0);
    assert_eq!(f32::from_bits(TENTH_BITS), 0.1);
    assert_eq!(f32::from_bits(HUNDRED_BITS), 100.0);
}

#[test]
fn new_camera_stands_at_three_and_looks_down_the_z_axis() {
    let camera = Camera::new();
    assert_eq!(camera.camera_pos, [s(0.0), s(0.0), s(3.0)]);
    assert_eq!(camera.camera_front, [s(0.0), s(0.0), s(-1.0)]);
    assert_eq!(camera.camera_up, [s(0.0), s(1.0), s(0.0)]);
    assert_eq!(
        camera.camera,
        LookAt {
            eye: [s(0.0), s(0.0), s(3.0)],
            front: [s(0.0), s(0.0), s(-1.0)],
            up: [s(0.0), s(1.0), s(0.0)],
        }
    );
    let expected = glm::look_at_rh(
        &glm::vec3(0.0, 0.0, 3.0),
        &glm::vec3(0.0, 0.0, 2.0),
        &glm::vec3(0.0, 1.0, 0.0),
    );
    assert_eq!(view_matrix(&camera.camera), expected);
}

#[test]
fn view_is_stale_until_update_and_then_a_fresh_look_at() {
    let mut camera = Camera::new();
    let old_view = camera.camera;
    // One step forwards: the position plus the front vector.
    let moved = v(camera.camera_pos) + v(camera.camera_front);
    camera.camera_pos = [s(moved.x), s(moved.y), s(moved.z)];
    assert_eq!(camera.camera, old_view);
    camera.update();
    assert_eq!(
        camera.camera,
        LookAt {
            eye: [s(0.0), s(0.0), s(2.0)],
            front: [s(0.0), s(0.0), s(-1.0)],
            up: [s(0.0), s(1.0), s(0.0)],
        }
    );
    assert_eq!(camera.camera_pos, [s(0.0), s(0.0), s(2.0)]);
    assert_eq!(camera.camera_front, [s(0.0), s(0.0), s(-1.0)]);
    assert_eq!(camera.camera_up, [s(0.0), s(1.0), s(0.0)]);
    let fresh = glm::look_at_rh(
        &glm::vec3(0.0, 0.0, 2.0),
        &glm::vec3(0.0, 0.0, 1.0),
        &glm::vec3(0.0, 1.0, 0.0),
    );
    assert_eq!(view_matrix(&camera.camera), fresh);
    let again = camera;
    camera.update();
    assert_eq!(camera, again);
}

#[test]
fn polygon_is_drawn_through_the_camera_with_its_tint() {
    let polygon = triangle();
    let camera = Camera::new();
    let call = polygon.draw((800, 600), &camera);
    assert_eq!(
        call,
        DrawCall {
            projection: Projection {
                fov: s(45.0),
                aspect: (600, 800),
                near: s(0.1),
                far: s(100.0),
            },
            view: camera.camera,
            model: &Transform::identity(),
            shading: Shading::Tint(Color::new(s(1.0), s(0.0), s(0.0))),
            parameters: DrawParameters {
                depth_test: true,
                depth_write: true,
                backface_culling: Culling::Disabled,
            },
        }
    );
    assert!(polygon.position.ops.is_empty());
}

#[test]
fn identity_model_seen_from_the_start_gives_projection_times_look_at() {
    let polygon = triangle();
    let camera = Camera::new();
    let (width, height) = (800u32, 600u32);
    let call = polygon.draw((width, height), &camera);
    let aspect = height as f32 / width as f32;
    let expected = glm::perspective(aspect, 45.0f32.to_radians(), 0.1, 100.0)
        * glm::look_at_rh(
            &glm::vec3(0.0, 0.0, 3.0),
            &glm::vec3(0.0, 0.0, 2.0),
            &glm::vec3(0.0, 1.0, 0.0),
        );
    let matrix = mvp(&call);
    assert_eq!(matrix, expected);
    // Nothing but the camera's offset moves the origin: it lies three
    // ahead of the eye, on the axis of the view.
    let origin = matrix * glm::vec4(0.0, 0.0, 0.0, 1.0);
    assert_eq!(origin.x, 0.0);
    assert_eq!(origin.y, 0.0);
    assert_eq!(origin.w, 3.0);
}

#[test]
fn drawing_uses_the_view_of_the_last_update() {
    let polygon = triangle();
    let mut camera = Camera::new();
    let before = polygon.draw((640, 480), &camera);
    camera.camera_pos = [s(1.0), s(2.0), s(3.0)];
    assert_eq!(polygon.draw((640, 480), &camera), before);
    camera.update();
    let after = polygon.draw((640, 480), &camera);
    assert_eq!(after.view.eye, [s(1.0), s(2.0), s(3.0)]);
    assert_eq!(after.projection, before.projection);
    assert_eq!(after.model, before.model);
}

#[test]
fn model_is_drawn_from_a_fixed_eye_with_its_light() {
    let mut model = Model::new(s(0.5));
    model.rotate_y(s(90.0));
    let call = model.draw((1024, 768));
    let mut placement = Transform::identity();
    placement.rotate_y(s(90.0));
    assert_eq!(
        call,
        DrawCall {
            projection: Projection {
                fov: s(45.0),
                aspect: (768, 1024),
                near: s(0.1),
                far: s(100.0),
            },
            view: LookAt {
                eye: [s(0.0), s(0.0), s(3.0)],
                front: [s(0.0), s(0.0), s(-3.0)],
                up: [s(0.0), s(1.0), s(0.0)],
            },
            model: &placement,
            shading: Shading::Light([s(-1.0), s(-1.0), s(1.0)]),
            parameters: DrawParameters {
                depth_test: true,
                depth_write: true,
                backface_culling: Culling::Clockwise,
            },
        }
    );
    let expected_view = glm::look_at_rh(
        &glm::vec3(0.0, 0.0, 3.0),
        &glm::vec3(0.0, 0.0, 0.0),
        &glm::vec3(0.0, 1.0, 0.0),
    );
    assert_eq!(view_matrix(&call.view), expected_view);
    assert_eq!(model.position.ops, vec![TransformOp::RotateY(s(90.0))]);
}

#[test]
fn placement_of_the_object_goes_into_the_matrix_last() {
    let mut polygon = triangle();
    polygon.translate(s(1.0), s(0.0), s(0.0));
    polygon.rotate_z(s(90.0));
    let camera = Camera::new();
    let call = polygon.draw((800, 600), &camera);
    assert_eq!(call.model, &polygon.position);
    let expected = glm::perspective(0.75, 45.0f32.to_radians(), 0.1, 100.0)
        * glm::look_at_rh(
            &glm::vec3(0.0, 0.0, 3.0),
            &glm::vec3(0.0, 0.0, 2.0),
            &glm::vec3(0.0, 1.0, 0.0),
        )
        * glm::translation(&glm::vec3(1.0, 0.0, 0.0))
        * glm::rotation(90.0f32.to_radians(), &glm::vec3(0.0, 0.0, 1.0));
    let difference = mvp(&call) - expected;
    assert!(difference.iter().all(|d| d.abs() < 1e-5));
}
