use lens_flare::gl_wrapper::command::Command;
use lens_flare::gl_wrapper::framebuffer::Framebuffer;
use lens_flare::gl_wrapper::geometry::{quad, Geometry, GeometryType};
use lens_flare::gl_wrapper::shader::{BuildEvent, BuildState, Shader, ShaderBuilder};
use lens_flare::gl_wrapper::value::{Matrix, Scalar, UniformValue};
use lens_flare::lfg::effect::{ApertureShape, Effect};
use lens_flare::lfg::flare::{Flare, FlareStyle};
use lens_flare::lfg::ghost::{gen_ghost_geo, DispersionCenter, LensGhost};
use lens_flare::lfg::shader_lib::ShaderLib;
use lens_flare::lfg::LfgError;
use lens_flare::window_state::WindowState;

const FLARE: u32 = 31;
const FLARE_ANAM: u32 = 32;
const SHAPE: u32 = 33;
const DISPERSION: u32 = 34;
const TONEMAP: u32 = 35;
const MAIN: u32 = 41;
const MAIN_COLOR: u32 = 42;
const SIDE: u32 = 43;
const SIDE_COLOR: u32 = 44;

fn ready(program: u32) -> Shader {
    let builder = ShaderBuilder::new("v", "f");
    let (state, _) = builder.build(BuildState::Uncompiled, BuildEvent::Start);
    let (state, _) = builder.build(state, BuildEvent::Compiled(Ok(1)));
    let (state, _) = builder.build(state, BuildEvent::Compiled(Ok(2)));
    let (state, _) = builder.build(state, BuildEvent::Linked(Ok(program)));
    state.finish().unwrap().unwrap()
}

fn library() -> ShaderLib {
    ShaderLib::new(
        Ok(ready(FLARE)),
        Ok(ready(FLARE_ANAM)),
        Ok(ready(SHAPE)),
        Ok(ready(DISPERSION)),
        Ok(ready(TONEMAP)),
    )
    .unwrap()
}

struct Scene {
    lib: ShaderLib,
    main: Framebuffer,
    side: Framebuffer,
    quad: Geometry,
    polygon: Geometry,
    state: WindowState,
}

fn scene() -> Scene {
    Scene {
        lib: library(),
        main: Framebuffer::hdr(MAIN, MAIN_COLOR, 1280, 720).0,
        side: Framebuffer::hdr(SIDE, SIDE_COLOR, 1280, 720).0,
        quad: quad(51, 52).0,
        polygon: gen_ghost_geo(8, 53, 54).unwrap().0,
        state: WindowState::with_size(1280, 720),
    }
}

fn frame(effect: &Effect, scene: &mut Scene) -> Vec<Command> {
    effect.draw(
        &scene.lib,
        &mut scene.main,
        &mut scene.side,
        &scene.quad,
        &scene.polygon,
        &scene.state,
    )
}

fn f(value: f32) -> u32 {
    value.to_bits()
}

fn uniform(program: u32, name: &str, value: UniformValue) -> Command {
    Command::Uniform { program, name: name.to_string(), value }
}

fn float1(value: f32) -> UniformValue {
    UniformValue::Float1(Scalar::Bits(value.to_bits()))
}

fn targets(commands: &[Command]) -> Vec<u32> {
    commands
        .iter()
        .filter_map(|command| match command {
            Command::BindFramebuffer { id } => Some(*id),
            _ => None,
        })
        .collect()
}

fn count(commands: &[Command], wanted: fn(&Command) -> bool) -> usize {
    commands.iter().filter(|command| wanted(command)).count()
}

fn is_clear(command: &Command) -> bool {
    matches!(command, Command::Clear)
}

fn is_draw(command: &Command) -> bool {
    matches!(command, Command::DrawArrays { .. })
}

/// Splits the calls of a frame into its passes: target and body of each.
fn passes(commands: &[Command]) -> Vec<(u32, Vec<Command>)> {
    let mut found = Vec::new();
    let mut open: Option<(u32, Vec<Command>)> = None;
    for command in commands {
        match (command, open.take()) {
            (Command::BindFramebuffer { id: 0 }, Some(pass)) => found.push(pass),
            (Command::BindFramebuffer { id }, None) => open = Some((*id, Vec::new())),
            (other, Some((id, mut body))) => {
                body.push(other.clone());
                open = Some((id, body));
            }
            (other, None) => panic!("{:?} outside every pass", other),
        }
    }
    assert!(open.is_none());
    found
}

#[test]
fn a_new_effect_has_four_ghosts_and_eight_blades() {
    let effect = Effect::new();
    assert_eq!(effect.flare, Flare::new());
    assert_eq!(
        effect.ghosts,
        vec![
            LensGhost::default(),
            LensGhost {
                offset: f(0.2),
                size: f(5.0),
                color: [f(1.0), f(0.5), f(0.5), f(1.0)],
                ..LensGhost::default()
            },
            LensGhost { offset: f(-0.8), size: f(20.0), ..LensGhost::default() },
            LensGhost { offset: f(-0.4), size: f(15.0), ..LensGhost::default() },
        ]
    );
    assert_eq!(effect.rotation, f(0.2));
    assert_eq!(effect.aperture_shape, ApertureShape::from_blade_count(8).unwrap());
    assert_eq!(effect.pos_x, f(0.8));
    assert_eq!(effect.pos_y, f(0.8));
    assert_eq!(effect.samples, 8);
    assert!(effect.tonemap);
}

#[test]
fn a_new_flare_is_reddish() {
    let flare = Flare::new();
    assert_eq!(flare.color, [f(1.0), f(0.5), f(0.5), f(1.0)]);
    assert_eq!(flare.intensity, f(1.0));
    assert_eq!(flare.ray_intensity, f(1.0));
    assert_eq!(flare.size, f(5.0));
    assert_eq!(flare.style, FlareStyle::Normal);
}

#[test]
fn set_position_moves_the_flare_only() {
    let mut effect = Effect::new();
    effect.set_position((f(0.25), f(0.75)));
    let expected = Effect { pos_x: f(0.25), pos_y: f(0.75), ..Effect::new() };
    assert_eq!(effect, expected);
}

#[test]
fn aperture_without_blades_is_circular() {
    assert_eq!(ApertureShape::from_blade_count(0), Ok(ApertureShape::Circular));
    assert_eq!(ApertureShape::Circular.get_blade_count(), 255);
}

#[test]
fn aperture_with_one_or_two_blades_is_refused() {
    let refused = Err(LfgError::InvalidEffectValue("aperture shape".to_string()));
    assert_eq!(ApertureShape::from_blade_count(1), refused);
    assert_eq!(ApertureShape::from_blade_count(2), refused);
    assert_eq!(
        LfgError::InvalidEffectValue("aperture shape".to_string()).to_string(),
        "Invalid value for parameter aperture shape"
    );
}

#[test]
fn aperture_keeps_its_blade_count() {
    for blades in 3..=255u8 {
        let shape = ApertureShape::from_blade_count(blades).unwrap();
        assert_eq!(shape, ApertureShape::Polygonal(blades));
        assert_eq!(shape.get_blade_count(), blades);
    }
}

#[test]
fn flare_draw_sets_four_uniforms_and_draws_the_quad() {
    let flare = Flare {
        color: [f(0.1), f(0.2), f(0.3), f(0.4)],
        intensity: f(3.0),
        size: f(9.0),
        ray_intensity: f(0.25),
        style: FlareStyle::Anamorphic,
    };
    let (quad, _) = quad(51, 52);
    assert_eq!(
        flare.draw(&ready(77), &quad),
        vec![
            uniform(
                77,
                "color",
                UniformValue::Float4(
                    Scalar::Bits(f(0.1)),
                    Scalar::Bits(f(0.2)),
                    Scalar::Bits(f(0.3)),
                    Scalar::Bits(f(0.4)),
                ),
            ),
            uniform(77, "intensity", float1(3.0)),
            uniform(77, "size", float1(9.0)),
            uniform(77, "ray_intensity", float1(0.25)),
            Command::BindVertexArray { id: 51 },
            Command::DrawArrays { mode: GeometryType::TriangleStrip, count: 4 },
        ]
    );
}

#[test]
fn frame_without_ghosts_clears_once_and_draws_the_flare_once() {
    let effect = Effect { ghosts: Vec::new(), ..Effect::new() };
    let mut scene = scene();
    let commands = frame(&effect, &mut scene);
    assert_eq!(targets(&commands), vec![MAIN, 0, MAIN, 0]);
    assert_eq!(count(&commands, is_clear), 1);
    assert_eq!(count(&commands, is_draw), 1);
    assert!(!commands.contains(&Command::BindFramebuffer { id: SIDE }));
    assert!(!commands.contains(&Command::UseProgram { program: SHAPE }));
    assert!(!commands.contains(&Command::UseProgram { program: DISPERSION }));
    assert_eq!(
        commands,
        vec![
            Command::BindFramebuffer { id: MAIN },
            Command::Clear,
            Command::BindFramebuffer { id: 0 },
            Command::BindFramebuffer { id: MAIN },
            Command::UseProgram { program: FLARE },
            uniform(
                FLARE,
                "flare_position",
                UniformValue::Float2(Scalar::Bits(f(0.8)), Scalar::Bits(f(0.8))),
            ),
            uniform(FLARE, "aspect_ratio", UniformValue::Float1(Scalar::Ratio(1280, 720))),
            uniform(FLARE, "blades", UniformValue::Float1(Scalar::Count(8))),
            uniform(
                FLARE,
                "texture_rotation",
                UniformValue::Matrix(Matrix::Rotation2 { angle: f(0.2) }),
            ),
            uniform(
                FLARE,
                "color",
                UniformValue::Float4(
                    Scalar::Bits(f(1.0)),
                    Scalar::Bits(f(0.5)),
                    Scalar::Bits(f(0.5)),
                    Scalar::Bits(f(1.0)),
                ),
            ),
            uniform(FLARE, "intensity", float1(1.0)),
            uniform(FLARE, "size", float1(5.0)),
            uniform(FLARE, "ray_intensity", float1(1.0)),
            Command::BindVertexArray { id: 51 },
            Command::DrawArrays { mode: GeometryType::TriangleStrip, count: 4 },
            Command::BindFramebuffer { id: 0 },
        ]
    );
}

#[test]
fn frame_with_four_ghosts_takes_turns_between_side_and_main_target() {
    let effect = Effect::new();
    assert_eq!(effect.ghosts.len(), 4);
    let mut scene = scene();
    let commands = frame(&effect, &mut scene);
    assert_eq!(
        targets(&commands),
        vec![
            MAIN, 0, //
            SIDE, 0, MAIN, 0, //
            SIDE, 0, MAIN, 0, //
            SIDE, 0, MAIN, 0, //
            SIDE, 0, MAIN, 0, //
            MAIN, 0,
        ]
    );
    let passes = passes(&commands);
    assert_eq!(passes.len(), 10);
    assert_eq!(passes[0], (MAIN, vec![Command::Clear]));
    for (index, item) in effect.ghosts.iter().enumerate() {
        let (target, shape) = &passes[1 + 2 * index];
        assert_eq!(*target, SIDE);
        assert_eq!(shape[0], Command::Clear);
        assert_eq!(shape[1], Command::UseProgram { program: SHAPE });
        assert_eq!(count(shape, is_clear), 1);
        assert_eq!(count(shape, is_draw), 1);
        assert_eq!(
            shape.last(),
            Some(&Command::DrawArrays { mode: GeometryType::TriangleFan, count: 10 })
        );
        assert!(shape.contains(&uniform(
            SHAPE,
            "modelMatrix",
            UniformValue::Matrix(Matrix::Model {
                position: item.ghost_pos_from_flare_pos((effect.pos_x, effect.pos_y)),
                size: item.size,
            }),
        )));

        let (target, copy) = &passes[2 + 2 * index];
        assert_eq!(*target, MAIN);
        assert_eq!(copy[0], Command::UseProgram { program: DISPERSION });
        assert_eq!(count(copy, is_clear), 0);
        assert_eq!(count(copy, is_draw), 1);
        assert_eq!(
            copy.last(),
            Some(&Command::DrawArrays { mode: GeometryType::TriangleStrip, count: 4 })
        );
        assert!(copy.contains(&Command::BindTextureAt { unit: 0, texture: SIDE_COLOR }));
    }
    let (target, flare) = &passes[9];
    assert_eq!(*target, MAIN);
    assert_eq!(flare[0], Command::UseProgram { program: FLARE });
    assert_eq!(count(flare, is_draw), 1);
    assert_eq!(count(&commands, is_clear), 5);
    assert_eq!(count(&commands, is_draw), 9);
    assert_eq!(
        commands.iter().filter(|c| **c == Command::UseProgram { program: FLARE }).count(),
        1
    );
}

#[test]
fn frame_with_one_ghost_is_four_passes() {
    let item = LensGhost { dispersion_center: DispersionCenter::GhostCenter, ..LensGhost::new() };
    let position = item.ghost_pos_from_flare_pos((f(0.8), f(0.8)));
    let effect = Effect { ghosts: vec![item], samples: 16, ..Effect::new() };
    let mut scene = scene();
    scene.state.size = (640, 480);
    scene.state.frame_num = 6;
    let commands = frame(&effect, &mut scene);
    let grey = UniformValue::Float4(
        Scalar::Bits(f(0.5)),
        Scalar::Bits(f(0.5)),
        Scalar::Bits(f(0.5)),
        Scalar::Bits(f(1.0)),
    );
    let passes = passes(&commands);
    assert_eq!(passes.len(), 4);
    assert_eq!(
        passes[1],
        (
            SIDE,
            vec![
                Command::Clear,
                Command::UseProgram { program: SHAPE },
                uniform(SHAPE, "aspect_ratio", UniformValue::Float1(Scalar::Ratio(640, 480))),
                uniform(
                    SHAPE,
                    "rotationMatrix",
                    UniformValue::Matrix(Matrix::RotationZ { angle: f(0.2) }),
                ),
                uniform(SHAPE, "color", grey),
                uniform(SHAPE, "empty", float1(1.0)),
                uniform(SHAPE, "ratio", float1(1.0)),
                uniform(
                    SHAPE,
                    "modelMatrix",
                    UniformValue::Matrix(Matrix::Model { position, size: f(30.0) }),
                ),
                Command::BindVertexArray { id: 53 },
                Command::DrawArrays { mode: GeometryType::TriangleFan, count: 10 },
            ]
        )
    );
    assert_eq!(
        passes[2],
        (
            MAIN,
            vec![
                Command::UseProgram { program: DISPERSION },
                uniform(
                    DISPERSION,
                    "res",
                    UniformValue::Float2(Scalar::Ratio(640, 128), Scalar::Ratio(480, 128)),
                ),
                uniform(DISPERSION, "samples", UniformValue::Int1(16)),
                Command::BindTextureAt { unit: 0, texture: SIDE_COLOR },
                uniform(DISPERSION, "intensity", float1(2.0)),
                uniform(DISPERSION, "dispersion", float1(0.1)),
                uniform(DISPERSION, "distortion", float1(0.9)),
                uniform(DISPERSION, "disperse_from_ghost_center", UniformValue::Int1(1)),
                uniform(
                    DISPERSION,
                    "jitter_offset",
                    UniformValue::Float2(Scalar::Bits(f(0.5)), Scalar::Bits(f(0.5))),
                ),
                uniform(DISPERSION, "ghost_pos", UniformValue::Point(position)),
                Command::BindVertexArray { id: 51 },
                Command::DrawArrays { mode: GeometryType::TriangleStrip, count: 4 },
            ]
        )
    );
}

#[test]
fn frame_leaves_both_targets_unbound() {
    let effect = Effect::new();
    let mut scene = scene();
    frame(&effect, &mut scene);
    assert!(!scene.main.is_bound());
    assert!(!scene.side.is_bound());
    assert_eq!((scene.main.id(), scene.side.id()), (MAIN, SIDE));
}

#[test]
fn resolution_follows_the_window() {
    let effect = Effect::new();
    let mut scene = scene();
    for size in [(1280u32, 720u32), (640, 480), (1, 1)] {
        scene.state.size = size;
        let commands = frame(&effect, &mut scene);
        let expected = uniform(
            DISPERSION,
            "res",
            UniformValue::Float2(Scalar::Ratio(size.0, 128), Scalar::Ratio(size.1, 128)),
        );
        assert_eq!(commands.iter().filter(|c| **c == expected).count(), 4);
    }
}

#[test]
fn anamorphic_style_draws_with_the_anamorphic_program() {
    let mut effect = Effect { ghosts: Vec::new(), ..Effect::new() };
    effect.flare.style = FlareStyle::Anamorphic;
    let mut scene = scene();
    let commands = frame(&effect, &mut scene);
    assert!(commands.contains(&Command::UseProgram { program: FLARE_ANAM }));
    assert!(!commands.contains(&Command::UseProgram { program: FLARE }));
    assert!(commands.contains(&uniform(FLARE_ANAM, "intensity", float1(1.0))));
}

#[test]
fn circular_aperture_gives_the_flare_its_ray_count() {
    let effect =
        Effect { ghosts: Vec::new(), aperture_shape: ApertureShape::Circular, ..Effect::new() };
    let mut scene = scene();
    let commands = frame(&effect, &mut scene);
    assert!(commands.contains(&uniform(FLARE, "blades", UniformValue::Float1(Scalar::Count(255)))));
}
