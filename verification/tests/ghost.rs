use cgmath::{vec2, Deg, InnerSpace, Matrix2, Vector2};
use lens_flare::gl_wrapper::command::Command;
use lens_flare::gl_wrapper::geometry::{
    AttrSize, Geometry, GeometryError, GeometryType, SIZE_LIMIT,
};
use lens_flare::gl_wrapper::shader::{BuildEvent, BuildState, Shader, ShaderBuilder};
use lens_flare::gl_wrapper::value::{Matrix, Placement, Scalar, UniformValue};
use lens_flare::lfg::ghost::{gen_ghost_geo, DispersionCenter, LensGhost};
use lens_flare::window_state::WindowState;

fn ready(program: u32) -> Shader {
    let builder = ShaderBuilder::new("v", "f");
    let (state, _) = builder.build(BuildState::Uncompiled, BuildEvent::Start);
    let (state, _) = builder.build(state, BuildEvent::Compiled(Ok(1)));
    let (state, _) = builder.build(state, BuildEvent::Compiled(Ok(2)));
    let (state, _) = builder.build(state, BuildEvent::Linked(Ok(program)));
    state.finish().unwrap().unwrap()
}

fn polygon(blades: u32) -> (Geometry, Vec<Scalar>) {
    let (geometry, commands) = gen_ghost_geo(blades, 1, 2).unwrap();
    match &commands[2] {
        Command::BufferData { data } => (geometry, data.clone()),
        other => panic!("no vertex data but {:?}", other),
    }
}

fn f(value: f32) -> u32 {
    value.to_bits()
}

fn uniform(program: u32, name: &str, value: UniformValue) -> Command {
    Command::Uniform { program, name: name.to_string(), value }
}

fn float1(value: f32) -> UniformValue {
    UniformValue::Float1(Scalar::Bits(value.to_bits()))
}

/// The point that a placement names, worked out in single precision.
fn position(placement: &Placement) -> (f32, f32) {
    let flare = Vector2::new(f32::from_bits(placement.flare_x), f32::from_bits(placement.flare_y));
    let mut point = (flare * 2.0 - vec2(1.0, 1.0)) * f32::from_bits(placement.offset);
    if let Some(perpendicular) = placement.perpendicular {
        let direction = (flare - vec2(0.5, 0.5)).normalize();
        point.x += direction.y * f32::from_bits(perpendicular);
        point.y += -direction.x * f32::from_bits(perpendicular);
    }
    (point.x, point.y)
}

/// The unit vector `(1, 0)` after so many turns by the `blades`-th part of a
/// full turn.
fn turned(steps: u32, blades: u32) -> Vector2<f32> {
    let mut vector = vec2(1.0, 0.0);
    for _ in 0..steps {
        vector = Matrix2::from_angle(Deg(360.0 / blades as f32)) * vector;
    }
    vector
}

#[test]
fn a_new_ghost_mirrors_the_flare() {
    let made = LensGhost::new();
    assert_eq!(made.color, [f(0.5), f(0.5), f(0.5), f(1.0)]);
    assert_eq!(made.offset, f(-1.0));
    assert_eq!(made.perpendicular_offset, f(0.0));
    assert_eq!(made.size, f(30.0));
    assert_eq!(made.intensity, f(2.0));
    assert_eq!(made.dispersion, f(0.1));
    assert_eq!(made.distortion, f(0.9));
    assert_eq!(made.center_transparency, f(1.0));
    assert_eq!(made.aspect_ratio, f(1.0));
    assert_eq!(made.dispersion_center, DispersionCenter::Image);
    assert_eq!(LensGhost::default(), made);
}

#[test]
fn ghost_position_is_mirrored_through_the_centre() {
    let made = LensGhost { offset: f(-1.0), perpendicular_offset: f(0.0), ..LensGhost::new() };
    let placement = made.ghost_pos_from_flare_pos((f(0.75), f(0.75)));
    assert_eq!(
        placement,
        Placement {
            flare_x: f(0.75),
            flare_y: f(0.75),
            offset: f(-1.0),
            perpendicular: Some(f(0.0)),
        }
    );
    assert_eq!(position(&placement), (-0.5, -0.5));
}

#[test]
fn ghost_position_scales_with_the_offset() {
    let made = LensGhost { offset: f(0.5), ..LensGhost::new() };
    let placement = made.ghost_pos_from_flare_pos((f(1.0), f(0.25)));
    assert_eq!(position(&placement), (0.5, -0.25));
}

#[test]
fn ghost_position_is_displaced_across_the_axis() {
    let made = LensGhost { offset: f(-1.0), perpendicular_offset: f(2.0), ..LensGhost::new() };
    let placement = made.ghost_pos_from_flare_pos((f(1.0), f(0.5)));
    assert_eq!(placement.perpendicular, Some(f(2.0)));
    assert_eq!(position(&placement), (-1.0, -2.0));
}

#[test]
fn ghost_position_for_a_flare_on_the_centre_is_finite() {
    let made = LensGhost { perpendicular_offset: f(3.0), ..LensGhost::new() };
    let placement = made.ghost_pos_from_flare_pos((f(0.5), f(0.5)));
    assert_eq!(
        placement,
        Placement { flare_x: f(0.5), flare_y: f(0.5), offset: f(-1.0), perpendicular: None }
    );
    let (x, y) = position(&placement);
    assert!(x.is_finite() && y.is_finite());
    assert_eq!((x, y), (0.0, 0.0));
    assert_eq!(made.ghost_pos_from_flare_pos((f(0.5), f(0.5))), placement);
}

#[test]
fn ghost_position_is_displaced_when_one_coordinate_is_off_the_centre() {
    let made = LensGhost { perpendicular_offset: f(3.0), ..LensGhost::new() };
    assert_eq!(made.ghost_pos_from_flare_pos((f(0.5), f(0.75))).perpendicular, Some(f(3.0)));
    assert_eq!(made.ghost_pos_from_flare_pos((f(0.25), f(0.5))).perpendicular, Some(f(3.0)));
}

#[test]
fn draw_sets_four_uniforms_and_draws_the_polygon() {
    let shader = ready(4);
    let (geo, _) = polygon(8);
    let made = LensGhost {
        color: [f(0.1), f(0.2), f(0.3), f(0.4)],
        size: f(12.0),
        center_transparency: f(7.0),
        aspect_ratio: f(1.5),
        ..LensGhost::new()
    };
    let flare = (f(0.8), f(0.3));
    let commands = made.draw(&shader, &WindowState::default(), flare, &geo);
    assert_eq!(
        commands,
        vec![
            uniform(
                4,
                "color",
                UniformValue::Float4(
                    Scalar::Bits(f(0.1)),
                    Scalar::Bits(f(0.2)),
                    Scalar::Bits(f(0.3)),
                    Scalar::Bits(f(0.4)),
                ),
            ),
            uniform(4, "empty", float1(7.0)),
            uniform(4, "ratio", float1(1.5)),
            uniform(
                4,
                "modelMatrix",
                UniformValue::Matrix(Matrix::Model {
                    position: made.ghost_pos_from_flare_pos(flare),
                    size: f(12.0),
                }),
            ),
            Command::BindVertexArray { id: 1 },
            Command::DrawArrays { mode: GeometryType::TriangleFan, count: 10 },
        ]
    );
}

#[test]
fn draw_dispersed_from_the_image_centre_sends_no_position() {
    let shader = ready(4);
    let (quad, _) = lens_flare::gl_wrapper::geometry::quad(5, 6);
    let made = LensGhost::new();
    let state = WindowState::default();
    let commands = made.draw_dispersed(&shader, &state, (f(0.8), f(0.8)), &quad);
    assert_eq!(
        commands,
        vec![
            uniform(4, "intensity", float1(2.0)),
            uniform(4, "dispersion", float1(0.1)),
            uniform(4, "distortion", float1(0.9)),
            uniform(4, "disperse_from_ghost_center", UniformValue::Int1(0)),
            uniform(
                4,
                "jitter_offset",
                UniformValue::Float2(Scalar::Bits(f(0.0)), Scalar::Bits(f(0.0))),
            ),
            Command::BindVertexArray { id: 5 },
            Command::DrawArrays { mode: GeometryType::TriangleStrip, count: 4 },
        ]
    );
}

#[test]
fn draw_dispersed_from_the_ghost_sends_its_position() {
    let shader = ready(4);
    let (quad, _) = lens_flare::gl_wrapper::geometry::quad(5, 6);
    let made = LensGhost { dispersion_center: DispersionCenter::GhostCenter, ..LensGhost::new() };
    let state = WindowState::default();
    let flare = (f(0.8), f(0.6));
    let commands = made.draw_dispersed(&shader, &state, flare, &quad);
    assert_eq!(commands.len(), 8);
    assert_eq!(commands[3], uniform(4, "disperse_from_ghost_center", UniformValue::Int1(1)));
    assert_eq!(
        commands[5],
        uniform(4, "ghost_pos", UniformValue::Point(made.ghost_pos_from_flare_pos(flare)))
    );
    assert_eq!(commands[7], Command::DrawArrays { mode: GeometryType::TriangleStrip, count: 4 });
}

#[test]
fn jitter_takes_turns_through_four_offsets() {
    let shader = ready(4);
    let (quad, _) = lens_flare::gl_wrapper::geometry::quad(5, 6);
    let made = LensGhost::new();
    let expected = [(0.0, 0.0), (0.5, 0.0), (0.5, 0.5), (0.0, 0.5), (0.0, 0.0), (0.5, 0.0)];
    for (frame_num, (x, y)) in expected.iter().enumerate() {
        let state = WindowState { frame_num: frame_num as u64, ..WindowState::default() };
        let commands = made.draw_dispersed(&shader, &state, (f(0.8), f(0.8)), &quad);
        assert_eq!(
            commands[4],
            uniform(
                4,
                "jitter_offset",
                UniformValue::Float2(Scalar::Bits(f(*x)), Scalar::Bits(f(*y))),
            )
        );
    }
}

#[test]
fn polygon_has_two_more_vertices_than_blades() {
    for blades in [3u32, 4, 5, 8, 17, 255] {
        let (geometry, data) = polygon(blades);
        assert_eq!(geometry.count(), blades + 2);
        assert_eq!(geometry.mode(), GeometryType::TriangleFan);
        assert_eq!(data.len() as u32, 3 * (blades + 2));
    }
}

#[test]
fn polygon_is_a_fan_around_the_centre() {
    let (_, data) = polygon(3);
    let zero = Scalar::Bits(f(0.0));
    let one = Scalar::Bits(f(1.0));
    assert_eq!(
        data,
        vec![
            zero,
            zero,
            zero,
            Scalar::TurnedX { steps: 0, blades: 3 },
            Scalar::TurnedY { steps: 0, blades: 3 },
            one,
            Scalar::TurnedX { steps: 1, blades: 3 },
            Scalar::TurnedY { steps: 1, blades: 3 },
            one,
            Scalar::TurnedX { steps: 2, blades: 3 },
            Scalar::TurnedY { steps: 2, blades: 3 },
            one,
            Scalar::TurnedX { steps: 3, blades: 3 },
            Scalar::TurnedY { steps: 3, blades: 3 },
            one,
        ]
    );
}

#[test]
fn polygon_is_uploaded_as_position_and_rim_mark() {
    let (_, commands) = gen_ghost_geo(8, 21, 22).unwrap();
    assert_eq!(commands.len(), 7);
    assert_eq!(commands[0], Command::BindVertexArray { id: 21 });
    assert_eq!(commands[1], Command::BindBuffer { id: 22 });
    assert_eq!(
        commands[3],
        Command::VertexAttribute { index: 0, components: AttrSize::Vec2, stride: 12, offset: 0 }
    );
    assert_eq!(
        commands[4],
        Command::VertexAttribute { index: 1, components: AttrSize::Float, stride: 12, offset: 8 }
    );
}

#[test]
fn polygon_rim_is_evenly_spaced_and_closed() {
    for blades in [3u32, 6, 8] {
        let (_, data) = polygon(blades);
        let mut rim = Vec::new();
        for vertex in 1..(blades as usize + 2) {
            match (data[3 * vertex], data[3 * vertex + 1]) {
                (Scalar::TurnedX { steps: a, blades: n }, Scalar::TurnedY { steps: b, blades: m }) => {
                    assert_eq!((a, b), (vertex as u32 - 1, vertex as u32 - 1));
                    assert_eq!((n, m), (blades, blades));
                    rim.push(turned(a, n));
                }
                other => panic!("no rim vertex but {:?}", other),
            }
        }
        assert_eq!(rim.len() as u32, blades + 1);
        let step = 360.0 / blades as f32;
        for pair in rim.windows(2) {
            let angle: Deg<f32> = pair[0].angle(pair[1]).into();
            assert!((angle.0 - step).abs() < 1e-3);
        }
        let first = rim[0];
        let last = rim[blades as usize];
        assert!((first - last).magnitude() < 1e-5);
    }
}

#[test]
fn polygon_with_more_vertices_than_the_context_counts_is_refused() {
    assert_eq!(gen_ghost_geo(SIZE_LIMIT - 1, 1, 2).err(), Some(GeometryError::TooLarge));
    assert_eq!(gen_ghost_geo(u32::MAX, 1, 2).err(), Some(GeometryError::TooLarge));
}

#[test]
fn polygon_without_blades_is_a_single_spoke() {
    let (geometry, data) = polygon(0);
    assert_eq!(geometry.count(), 2);
    assert_eq!(data.len(), 6);
}
