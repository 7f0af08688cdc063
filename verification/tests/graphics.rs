use nalgebra_glm as glm;
use render_core::error::Error;
use render_core::graphics::{Color, Model, Polygon, Vertex};
use render_core::mesh::{Mesh, Vertex3};
use render_core::texture::Texture;
use render_core::transform::{Transform, TransformOp};
use render_core::scalar::Scalar;

fn s(value: f32) -> Scalar {
    Scalar::from_bits(value.to_bits())
}

fn f(scalar: Scalar) -> f32 {
    f32::from_bits(scalar.to_bits())
}

fn scalars(values: &[f32]) -> Vec<Scalar> {
    values.iter().map(|v| s(*v)).collect()
}

/// Forms the product that a transform stands for: each operation
/// multiplies the matrix from the right.
fn matrix(transform: &Transform) -> glm::Mat4 {
    let mut model: glm::Mat4 = glm::identity();
    for op in &transform.ops {
        model = match *op {
            TransformOp::Scale(x, y, z) => glm::scale(&model, &glm::vec3(f(x), f(y), f(z))),
            TransformOp::Translate(x, y, z) => {
                glm::translate(&model, &glm::vec3(f(x), f(y), f(z)))
            }
            TransformOp::RotateX(angle) => glm::rotate_x(&model, f(angle).to_radians()),
            TransformOp::RotateY(angle) => glm::rotate_y(&model, f(angle).to_radians()),
            TransformOp::RotateZ(angle) => glm::rotate_z(&model, f(angle).to_radians()),
        };
    }
    model
}

#[test]
fn color_holds_red_green_blue() {
    let color = Color::new(s(1.0), s(0.5), s(0.25));
    assert_eq!(color.rgb, [s(1.0), s(0.5), s(0.25)]);
}

#[test]
fn identity_has_no_operations() {
    let transform = Transform::identity();
    assert!(transform.ops.is_empty());
    assert_eq!(matrix(&transform), glm::identity::<f32, glm::U4>());
}

#[test]
fn operations_are_recorded_in_call_order() {
    let mut transform = Transform::identity();
    transform.scale(s(2.0), s(3.0), s(4.0));
    transform.translate(s(1.0), s(0.0), s(-1.0));
    transform.rotate_x(s(10.0));
    transform.rotate_y(s(20.0));
    transform.rotate_z(s(30.0));
    assert_eq!(
        transform.ops,
        vec![
            TransformOp::Scale(s(2.0), s(3.0), s(4.0)),
            TransformOp::Translate(s(1.0), s(0.0), s(-1.0)),
            TransformOp::RotateX(s(10.0)),
            TransformOp::RotateY(s(20.0)),
            TransformOp::RotateZ(s(30.0)),
        ]
    );
}

#[test]
fn product_is_taken_in_call_order() {
    let mut transform = Transform::identity();
    transform.scale(s(2.0), s(3.0), s(4.0));
    transform.translate(s(1.0), s(0.0), s(-1.0));
    transform.rotate_z(s(30.0));
    let identity: glm::Mat4 = glm::identity();
    let expected = identity
        * glm::scaling(&glm::vec3(2.0, 3.0, 4.0))
        * glm::translation(&glm::vec3(1.0, 0.0, -1.0))
        * glm::rotation(30.0f32.to_radians(), &glm::vec3(0.0, 0.0, 1.0));
    let difference = matrix(&transform) - expected;
    assert!(difference.iter().all(|d| d.abs() < 1e-5));
}

#[test]
fn translate_then_rotate_is_not_rotate_then_translate() {
    let mut first = Transform::identity();
    first.translate(s(1.0), s(2.0), s(3.0));
    first.rotate_x(s(90.0));
    let mut second = Transform::identity();
    second.rotate_x(s(90.0));
    second.translate(s(1.0), s(2.0), s(3.0));
    assert_ne!(first, second);
    assert_ne!(matrix(&first), matrix(&second));
    // Rotating last leaves the shift as it was given; rotating first turns it.
    let moved = matrix(&first) * glm::vec4(0.0, 0.0, 0.0, 1.0);
    assert!((moved - glm::vec4(1.0, 2.0, 3.0, 1.0)).iter().all(|d| d.abs() < 1e-5));
    let turned = matrix(&second) * glm::vec4(0.0, 0.0, 0.0, 1.0);
    assert!((turned - glm::vec4(1.0, -3.0, 2.0, 1.0)).iter().all(|d| d.abs() < 1e-5));
}

#[test]
fn polygon_starts_at_the_identity_and_keeps_its_data() {
    let data = vec![
        Vertex { position: [s(-0.5), s(-0.5), s(0.0)], tex_coords: [s(0.0), s(0.0)] },
        Vertex { position: [s(0.5), s(-0.5), s(0.0)], tex_coords: [s(1.0), s(0.0)] },
        Vertex { position: [s(0.0), s(0.5), s(0.0)], tex_coords: [s(0.5), s(1.0)] },
    ];
    let color = Color::new(s(1.0), s(0.0), s(0.0));
    let mut polygon = Polygon::new(data.clone(), color);
    assert_eq!(polygon.data, data);
    assert_eq!(polygon.color, color);
    assert_eq!(polygon.position, Transform::identity());
    polygon.scale(s(0.5), s(0.5), s(0.5));
    polygon.translate(s(-0.1), s(0.0), s(0.0));
    polygon.rotate_x(s(1.0));
    polygon.rotate_y(s(2.0));
    polygon.rotate_z(s(3.0));
    assert_eq!(
        polygon.position.ops,
        vec![
            TransformOp::Scale(s(0.5), s(0.5), s(0.5)),
            TransformOp::Translate(s(-0.1), s(0.0), s(0.0)),
            TransformOp::RotateX(s(1.0)),
            TransformOp::RotateY(s(2.0)),
            TransformOp::RotateZ(s(3.0)),
        ]
    );
    assert_eq!(polygon.data, data);
    assert_eq!(polygon.color, color);
}

#[test]
fn model_keeps_its_factor_apart_from_its_placement() {
    let factor = s((1.41f32 / 12.0).sqrt());
    let mut model = Model::new(factor);
    assert_eq!(model.scale, factor);
    assert_eq!(model.light, [s(-1.0), s(-1.0), s(1.0)]);
    assert!(model.position.ops.is_empty());
    model.scale(factor, factor, factor);
    model.rotate_x(s(1.0));
    model.rotate_y(s(1.0));
    model.rotate_z(s(1.0));
    model.translate(s(0.0), s(1.0), s(0.0));
    assert_eq!(
        model.position.ops,
        vec![
            TransformOp::Scale(factor, factor, factor),
            TransformOp::RotateX(s(1.0)),
            TransformOp::RotateY(s(1.0)),
            TransformOp::RotateZ(s(1.0)),
            TransformOp::Translate(s(0.0), s(1.0), s(0.0)),
        ]
    );
    assert_eq!(model.scale, factor);
    assert_eq!(model.light, [s(-1.0), s(-1.0), s(1.0)]);
}

#[test]
fn load_model_expands_indices_in_order() {
    let mesh = Mesh {
        positions: scalars(&[0.0, 0.1, 0.2, 1.0, 1.1, 1.2, 2.0, 2.1, 2.2]),
        normals: scalars(&[0.0, 0.0, 1.0, 0.0, 1.0, 0.0, 1.0, 0.0, 0.0]),
        indices: vec![2, 0, 1, 1],
    };
    let vertices = Model::load_model(&vec![mesh]).unwrap();
    assert_eq!(
        vertices,
        vec![
            Vertex3 { position: [s(2.0), s(2.1), s(2.2)], normal: [s(1.0), s(0.0), s(0.0)] },
            Vertex3 { position: [s(0.0), s(0.1), s(0.2)], normal: [s(0.0), s(0.0), s(1.0)] },
            Vertex3 { position: [s(1.0), s(1.1), s(1.2)], normal: [s(0.0), s(1.0), s(0.0)] },
            Vertex3 { position: [s(1.0), s(1.1), s(1.2)], normal: [s(0.0), s(1.0), s(0.0)] },
        ]
    );
}

#[test]
fn load_model_gives_zero_normals_where_there_are_none() {
    let mesh = Mesh {
        positions: scalars(&[1.0, 2.0, 3.0, 4.0, 5.0, 6.0]),
        normals: Vec::new(),
        indices: vec![1, 0],
    };
    let vertices = Model::load_model(&vec![mesh]).unwrap();
    assert_eq!(
        vertices,
        vec![
            Vertex3 { position: [s(4.0), s(5.0), s(6.0)], normal: [s(0.0), s(0.0), s(0.0)] },
            Vertex3 { position: [s(1.0), s(2.0), s(3.0)], normal: [s(0.0), s(0.0), s(0.0)] },
        ]
    );
}

#[test]
fn load_model_joins_meshes_in_order() {
    let first = Mesh {
        positions: scalars(&[1.0, 1.0, 1.0]),
        normals: Vec::new(),
        indices: vec![0, 0],
    };
    let empty = Mesh { positions: Vec::new(), normals: Vec::new(), indices: Vec::new() };
    let second = Mesh {
        positions: scalars(&[2.0, 2.0, 2.0, 3.0, 3.0, 3.0]),
        normals: scalars(&[0.0, 1.0, 0.0, 0.0, 0.0, 1.0]),
        indices: vec![1],
    };
    let vertices = Model::load_model(&vec![first, empty, second]).unwrap();
    assert_eq!(
        vertices,
        vec![
            Vertex3 { position: [s(1.0), s(1.0), s(1.0)], normal: [s(0.0), s(0.0), s(0.0)] },
            Vertex3 { position: [s(1.0), s(1.0), s(1.0)], normal: [s(0.0), s(0.0), s(0.0)] },
            Vertex3 { position: [s(3.0), s(3.0), s(3.0)], normal: [s(0.0), s(0.0), s(1.0)] },
        ]
    );
    assert_eq!(Model::load_model(&Vec::new()), Ok(Vec::new()));
}

#[test]
fn load_model_refuses_an_index_without_a_vertex() {
    let error = Err(Error::UnknownError("mesh index out of range".to_string()));
    let short = Mesh {
        positions: scalars(&[1.0, 2.0, 3.0, 4.0, 5.0]),
        normals: Vec::new(),
        indices: vec![0, 1],
    };
    assert_eq!(Model::load_model(&vec![short]), error);
    let short_normals = Mesh {
        positions: scalars(&[1.0, 2.0, 3.0, 4.0, 5.0, 6.0]),
        normals: scalars(&[0.0, 0.0, 1.0]),
        indices: vec![0, 1],
    };
    assert_eq!(Model::load_model(&vec![short_normals]), error);
    let good = Mesh { positions: scalars(&[1.0, 2.0, 3.0]), normals: Vec::new(), indices: vec![0] };
    let huge = Mesh {
        positions: scalars(&[1.0, 2.0, 3.0]),
        normals: Vec::new(),
        indices: vec![u32::MAX],
    };
    assert_eq!(Model::load_model(&vec![good, huge]), error);
}

#[test]
fn new_texture_puts_the_bottom_row_first() {
    // Two texels wide, three rows high.
    let data: Vec<u8> = (0..24).collect();
    let texture = Polygon::new_texture(&data, 2, 3).unwrap();
    assert_eq!(
        texture,
        Texture {
            width: 2,
            height: 3,
            data: vec![
                16, 17, 18, 19, 20, 21, 22, 23, 8, 9, 10, 11, 12, 13, 14, 15, 0, 1, 2, 3, 4, 5,
                6, 7,
            ],
        }
    );
    let back = Polygon::new_texture(&texture.data, 2, 3).unwrap();
    assert_eq!(back.data, data);
}

#[test]
fn new_texture_keeps_a_single_row() {
    let data: Vec<u8> = vec![9, 8, 7, 6, 5, 4, 3, 2];
    let texture = Polygon::new_texture(&data, 2, 1).unwrap();
    assert_eq!(texture.data, data);
}

#[test]
fn new_texture_accepts_an_empty_image() {
    assert_eq!(
        Polygon::new_texture(&Vec::new(), 0, 0),
        Ok(Texture { width: 0, height: 0, data: Vec::new() })
    );
    assert_eq!(
        Polygon::new_texture(&Vec::new(), 0, 7),
        Ok(Texture { width: 0, height: 7, data: Vec::new() })
    );
    assert_eq!(
        Polygon::new_texture(&Vec::new(), u32::MAX, 0),
        Ok(Texture { width: u32::MAX, height: 0, data: Vec::new() })
    );
}

#[test]
fn new_texture_refuses_data_of_the_wrong_size() {
    let error = Err(Error::UnknownError("texel data does not match the image size".to_string()));
    assert_eq!(Polygon::new_texture(&vec![0; 7], 1, 2), error);
    assert_eq!(Polygon::new_texture(&vec![0; 8], 2, 2), error);
    assert_eq!(Polygon::new_texture(&vec![0; 12], 1, 2), error);
    assert_eq!(Polygon::new_texture(&Vec::new(), 1, 1), error);
    assert_eq!(Polygon::new_texture(&vec![0; 4], u32::MAX, u32::MAX), error);
}

#[test]
fn new_texture_agrees_with_the_reversal_of_glium() {
    for (width, height) in [(1u32, 1u32), (3, 2), (2, 5), (4, 4)] {
        let len = (4 * width * height) as usize;
        let data: Vec<u8> = (0..len).map(|i| (i * 7 % 251) as u8).collect();
        let reversed =
            glium::texture::RawImage2d::from_raw_rgba_reversed(&data, (width, height));
        let texture = Polygon::new_texture(&data, width, height).unwrap();
        assert_eq!(texture.data, reversed.data.into_owned());
        assert_eq!((texture.width, texture.height), (reversed.width, reversed.height));
    }
}

#[test]
fn load_model_expands_what_the_loader_reads() {
    let source = "\
v 0 0 0
v 1 0 0
v 0 1 0
v 0 0 1
vn 0 0 1
f 1//1 2//1 3//1
o second
v 5 5 5
v 6 5 5
v 5 6 5
f 5 6 7
";
    let mut reader = std::io::BufReader::new(source.as_bytes());
    let (models, _) = tobj::load_obj_buf(&mut reader, |_| Err(tobj::LoadError::GenericFailure))
        .unwrap();
    let meshes: Vec<Mesh> = models
        .iter()
        .map(|model| Mesh {
            positions: scalars(&model.mesh.positions),
            normals: scalars(&model.mesh.normals),
            indices: model.mesh.indices.clone(),
        })
        .collect();
    let expected: Vec<Vertex3> = models
        .iter()
        .flat_map(|model| {
            let mesh = &model.mesh;
            mesh.indices.iter().map(move |index| {
                let i = *index as usize;
                Vertex3 {
                    position: [
                        s(mesh.positions[3 * i]),
                        s(mesh.positions[3 * i + 1]),
                        s(mesh.positions[3 * i + 2]),
                    ],
                    normal: if mesh.normals.is_empty() {
                        [s(0.0), s(0.0), s(0.0)]
                    } else {
                        [
                            s(mesh.normals[3 * i]),
                            s(mesh.normals[3 * i + 1]),
                            s(mesh.normals[3 * i + 2]),
                        ]
                    },
                }
            })
        })
        .collect();
    let vertices = Model::load_model(&meshes).unwrap();
    assert_eq!(vertices.len(), 6);
    assert_eq!(vertices, expected);
    assert_eq!(vertices[1].position, [s(1.0), s(0.0), s(0.0)]);
    assert_eq!(vertices[1].normal, [s(0.0), s(0.0), s(1.0)]);
    assert_eq!(vertices[4].position, [s(6.0), s(5.0), s(5.0)]);
    assert_eq!(vertices[4].normal, [s(0.0), s(0.0), s(0.0)]);
}
