use crate::gl_wrapper::command::{append_commands, push_command, Command, CommandView};
use crate::gl_wrapper::geometry::{
    build_error, draw_commands, lemma_vertex_width_push, upload_commands, vertex_width, AttrSize,
    Geometry,
    GeometryBuilder, GeometryBuilderView, GeometryError, GeometryType, GeometryView, SIZE_LIMIT,
};
use crate::gl_wrapper::shader::Shader;
use crate::gl_wrapper::value::{
    Matrix, Placement, Scalar, UniformValue, HALF, MINUS_ONE, NINE_TENTHS, ONE, TENTH, THIRTY, TWO,
    ZERO,
};
use crate::window_state::WindowState;
use vstd::prelude::*;

verus! {

/// Where the samples of the dispersion pass are centred.
#[derive(Debug, Clone, Copy, Hash, PartialEq, Eq, Structural)]
pub enum DispersionCenter {
    /// On the ghost.
    GhostCenter,
    /// On the image centre.
    Image,
}

/// Looks of one ghost. Every number is a single-precision bit pattern.
#[derive(Debug, Clone, Copy, PartialEq, Eq)]
pub struct LensGhost {
    /// Red, green, blue and alpha.
    pub color: [u32; 4],
    /// Position along the line from the flare through the image centre: `-1`
    /// mirrors the flare through the centre.
    pub offset: u32,
    /// Displacement across that line.
    pub perpendicular_offset: u32,
    /// Size in hundredths of the image.
    pub size: u32,
    pub dispersion: u32,
    pub distortion: u32,
    pub intensity: u32,
    pub center_transparency: u32,
    pub aspect_ratio: u32,
    pub dispersion_center: DispersionCenter,
}

/// The ghost that others are varied from: grey, of size thirty, mirroring the
/// flare through the image centre and dispersing from there.
pub open spec fn default_ghost() -> LensGhost {
    LensGhost {
        color: [HALF, HALF, HALF, ONE],
        offset: MINUS_ONE,
        perpendicular_offset: ZERO,
        size: THIRTY,
        intensity: TWO,
        dispersion: TENTH,
        distortion: NINE_TENTHS,
        center_transparency: ONE,
        aspect_ratio: ONE,
        dispersion_center: DispersionCenter::Image,
    }
}

/// Where a ghost lies for a flare at `flare_pos`, given in `[0, 1]` on both
/// axes. A flare exactly on the image centre, `(0.5, 0.5)`, gives the line
/// through the centre no direction, so nothing is displaced across it.
pub open spec fn placement(this: LensGhost, flare_pos: (u32, u32)) -> Placement {
    Placement {
        flare_x: flare_pos.0,
        flare_y: flare_pos.1,
        offset: this.offset,
        perpendicular: if flare_pos.0 == HALF && flare_pos.1 == HALF {
            None
        } else {
            Some(this.perpendicular_offset)
        },
    }
}

/// A ghost is displaced across its axis by its own perpendicular offset,
/// whatever that is, for every flare but the one exactly on the image centre;
/// for that one it is not displaced at all.
pub proof fn lemma_centred_flare_is_not_displaced(this: LensGhost, flare_pos: (u32, u32))
    ensures
        flare_pos == (HALF, HALF) ==> placement(this, flare_pos).perpendicular is None,
        flare_pos != (HALF, HALF) ==> placement(this, flare_pos).perpendicular == Some(
            this.perpendicular_offset,
        ),
        placement(this, flare_pos).offset == this.offset,
        placement(this, flare_pos).flare_x == flare_pos.0,
        placement(this, flare_pos).flare_y == flare_pos.1,
{
}

/// The calls that draw the shape of a ghost with a program that is current
/// already: colour, transparency of the centre, aspect ratio and model matrix,
/// then the polygon.
pub open spec fn ghost_commands(
    this: LensGhost,
    program: u32,
    flare_pos: (u32, u32),
    geo: GeometryView,
) -> Seq<CommandView> {
    seq![
        CommandView::Uniform {
            program,
            name: "color"@,
            value: UniformValue::Float4(
                Scalar::Bits(this.color[0]),
                Scalar::Bits(this.color[1]),
                Scalar::Bits(this.color[2]),
                Scalar::Bits(this.color[3]),
            ),
        },
        CommandView::Uniform {
            program,
            name: "empty"@,
            value: UniformValue::Float1(Scalar::Bits(this.center_transparency)),
        },
        CommandView::Uniform {
            program,
            name: "ratio"@,
            value: UniformValue::Float1(Scalar::Bits(this.aspect_ratio)),
        },
        CommandView::Uniform {
            program,
            name: "modelMatrix"@,
            value: UniformValue::Matrix(
                Matrix::Model { position: placement(this, flare_pos), size: this.size },
            ),
        },
    ] + draw_commands(geo)
}

/// The offset by which the samples of a frame are shifted: the frames take
/// turns through the four corners of half a pixel.
pub open spec fn jitter_offset(frame_num: u64) -> (u32, u32) {
    if frame_num % 4 == 1 {
        (HALF, ZERO)
    } else if frame_num % 4 == 2 {
        (HALF, HALF)
    } else if frame_num % 4 == 3 {
        (ZERO, HALF)
    } else {
        (ZERO, ZERO)
    }
}

/// The calls that copy a ghost with dispersion, with a program that is current
/// already: the three strengths, the centre of the dispersion, the jitter
/// and, where the dispersion is centred on the ghost, its position; then the
/// quad.
pub open spec fn dispersed_commands(
    this: LensGhost,
    program: u32,
    frame_num: u64,
    flare_pos: (u32, u32),
    quad: GeometryView,
) -> Seq<CommandView> {
    seq![
        CommandView::Uniform {
            program,
            name: "intensity"@,
            value: UniformValue::Float1(Scalar::Bits(this.intensity)),
        },
        CommandView::Uniform {
            program,
            name: "dispersion"@,
            value: UniformValue::Float1(Scalar::Bits(this.dispersion)),
        },
        CommandView::Uniform {
            program,
            name: "distortion"@,
            value: UniformValue::Float1(Scalar::Bits(this.distortion)),
        },
        CommandView::Uniform {
            program,
            name: "disperse_from_ghost_center"@,
            value: UniformValue::Int1(
                if this.dispersion_center == DispersionCenter::GhostCenter {
                    1i32
                } else {
                    0i32
                },
            ),
        },
        CommandView::Uniform {
            program,
            name: "jitter_offset"@,
            value: UniformValue::Float2(
                Scalar::Bits(jitter_offset(frame_num).0),
                Scalar::Bits(jitter_offset(frame_num).1),
            ),
        },
    ] + (if this.dispersion_center == DispersionCenter::GhostCenter {
        seq![
            CommandView::Uniform {
                program,
                name: "ghost_pos"@,
                value: UniformValue::Point(placement(this, flare_pos)),
            },
        ]
    } else {
        Seq::empty()
    }) + draw_commands(quad)
}

impl LensGhost {
    /// A grey ghost of size thirty that mirrors the flare through the image
    /// centre and disperses from there.
    pub fn new() -> (made: Self)
        ensures
            made == default_ghost(),
    {
        LensGhost {
            color: [HALF, HALF, HALF, ONE],
            offset: MINUS_ONE,
            perpendicular_offset: ZERO,
            size: THIRTY,
            intensity: TWO,
            dispersion: TENTH,
            distortion: NINE_TENTHS,
            center_transparency: ONE,
            aspect_ratio: ONE,
            dispersion_center: DispersionCenter::Image,
        }
    }

    /// Where the ghost lies for a flare at `flare_pos`.
    pub fn ghost_pos_from_flare_pos(&self, flare_pos: (u32, u32)) -> (position: Placement)
        ensures
            position == placement(*self, flare_pos),
    {
        let perpendicular = if flare_pos.0 == HALF && flare_pos.1 == HALF {
            None
        } else {
            Some(self.perpendicular_offset)
        };
        Placement { flare_x: flare_pos.0, flare_y: flare_pos.1, offset: self.offset, perpendicular }
    }

    /// The calls that draw the shape of the ghost with a program that is
    /// current already.
    pub fn draw(
        &self,
        shader: &Shader,
        _state: &WindowState,
        flare_pos: (u32, u32),
        geo: &Geometry,
    ) -> (commands: Vec<Command>)
        ensures
            commands.deep_view() == ghost_commands(*self, shader@, flare_pos, geo@),
    {
        let mut commands: Vec<Command> = Vec::new();
        push_command(
            &mut commands,
            shader.set_uniform(
                "color",
                UniformValue::Float4(
                    Scalar::Bits(self.color[0]),
                    Scalar::Bits(self.color[1]),
                    Scalar::Bits(self.color[2]),
                    Scalar::Bits(self.color[3]),
                ),
            ),
        );
        push_command(
            &mut commands,
            shader.set_uniform(
                "empty",
                UniformValue::Float1(Scalar::Bits(self.center_transparency)),
            ),
        );
        push_command(
            &mut commands,
            shader.set_uniform("ratio", UniformValue::Float1(Scalar::Bits(self.aspect_ratio))),
        );
        let position = self.ghost_pos_from_flare_pos(flare_pos);
        push_command(
            &mut commands,
            shader.set_uniform(
                "modelMatrix",
                UniformValue::Matrix(Matrix::Model { position, size: self.size }),
            ),
        );
        append_commands(&mut commands, geo.draw());
        commands
    }

    /// The calls that copy the ghost, which was drawn into the texture bound
    /// on unit zero, with dispersion, with a program that is current already.
    pub fn draw_dispersed(
        &self,
        shader: &Shader,
        state: &WindowState,
        flare_pos: (u32, u32),
        quad: &Geometry,
    ) -> (commands: Vec<Command>)
        ensures
            commands.deep_view() == dispersed_commands(
                *self,
                shader@,
                state.frame_num,
                flare_pos,
                quad@,
            ),
    {
        let mut commands: Vec<Command> = Vec::new();
        push_command(
            &mut commands,
            shader.set_uniform("intensity", UniformValue::Float1(Scalar::Bits(self.intensity))),
        );
        push_command(
            &mut commands,
            shader.set_uniform("dispersion", UniformValue::Float1(Scalar::Bits(self.dispersion))),
        );
        push_command(
            &mut commands,
            shader.set_uniform("distortion", UniformValue::Float1(Scalar::Bits(self.distortion))),
        );
        let center = match self.dispersion_center {
            DispersionCenter::GhostCenter => true,
            DispersionCenter::Image => false,
        };
        let jitter: (u32, u32) = match state.frame_num % 4 {
            1 => (HALF, ZERO),
            2 => (HALF, HALF),
            3 => (ZERO, HALF),
            _ => (ZERO, ZERO),
        };
        push_command(
            &mut commands,
            shader.set_uniform(
                "disperse_from_ghost_center",
                UniformValue::Int1(if center { 1 } else { 0 }),
            ),
        );
        push_command(
            &mut commands,
            shader.set_uniform(
                "jitter_offset",
                UniformValue::Float2(Scalar::Bits(jitter.0), Scalar::Bits(jitter.1)),
            ),
        );
        if center {
            let position = self.ghost_pos_from_flare_pos(flare_pos);
            push_command(
                &mut commands,
                shader.set_uniform("ghost_pos", UniformValue::Point(position)),
            );
        }
        append_commands(&mut commands, quad.draw());
        commands
    }
}

impl Default for LensGhost {
    fn default() -> (made: Self)
        ensures
            made == default_ghost(),
    {
        Self::new()
    }
}

/// One component of the polygon of a ghost. Three components make a vertex:
/// a position in the plane and a mark that is zero at the centre and one on
/// the rim. The first vertex is the centre; the vertex after it is the unit
/// vector `(1, 0)`, and each further one is its predecessor turned by the
/// `blades`-th part of a full turn.
pub open spec fn polygon_component(blades: u32, index: int) -> Scalar {
    let vertex = index / 3;
    let part = index % 3;
    if vertex == 0 {
        Scalar::Bits(ZERO)
    } else if part == 0 {
        Scalar::TurnedX { steps: (vertex - 1) as u32, blades }
    } else if part == 1 {
        Scalar::TurnedY { steps: (vertex - 1) as u32, blades }
    } else {
        Scalar::Bits(ONE)
    }
}

/// The components of the polygon of a ghost: the centre and `blades + 1`
/// vertices on the rim, the last of which closes the fan.
pub open spec fn polygon_data(blades: u32) -> Seq<Scalar> {
    Seq::new(3 * (blades + 2) as nat, |index: int| polygon_component(blades, index))
}

/// What the builder of the polygon holds.
pub open spec fn polygon_builder(blades: u32) -> GeometryBuilderView {
    GeometryBuilderView {
        data: polygon_data(blades),
        attributes: seq![AttrSize::Vec2, AttrSize::Float],
        mode: GeometryType::TriangleFan,
    }
}

/// A position and a mark make a vertex three wide, so the polygon divides
/// into `blades + 2` vertices.
pub proof fn lemma_polygon_width(blades: u32)
    ensures
        vertex_width(polygon_builder(blades).attributes) == 3,
        polygon_data(blades).len() / 3 == blades + 2,
        polygon_data(blades).len() % 3 == 0,
        blades + 2 <= SIZE_LIMIT ==> build_error(polygon_builder(blades)) is None,
{
    let one = Seq::<AttrSize>::empty().push(AttrSize::Vec2);
    lemma_vertex_width_push(Seq::empty(), AttrSize::Vec2);
    lemma_vertex_width_push(one, AttrSize::Float);
    assert(polygon_builder(blades).attributes =~= one.push(AttrSize::Float));
}

/// The polygon of a ghost as a fan of triangles in the vertex array `vao` and
/// the vertex buffer `vbo`, both fresh from the context, with the calls that
/// put it there. It has `blades + 2` vertices; more vertices than the context
/// can count are refused.
pub fn gen_ghost_geo(blades: u32, vao: u32, vbo: u32) -> (built: Result<
    (Geometry, Vec<Command>),
    GeometryError,
>)
    ensures
        match built {
            Ok((geometry, commands)) => {
                &&& blades + 2 <= SIZE_LIMIT
                &&& geometry@ == (GeometryView {
                    mode: GeometryType::TriangleFan,
                    count: (blades + 2) as u32,
                    vao,
                    vbo,
                })
                &&& commands.deep_view() == upload_commands(vao, vbo, polygon_builder(blades))
            },
            Err(error) => blades + 2 > SIZE_LIMIT && error == GeometryError::TooLarge,
        },
{
    if blades > SIZE_LIMIT - 2 {
        return Err(GeometryError::TooLarge);
    }
    let mut vert_data: Vec<Scalar> = Vec::new();
    vert_data.push(Scalar::Bits(ZERO));
    vert_data.push(Scalar::Bits(ZERO));
    vert_data.push(Scalar::Bits(ZERO));
    let mut steps: u32 = 0;
    while steps <= blades
        invariant
            blades <= SIZE_LIMIT - 2,
            steps <= blades + 1,
            vert_data@ == Seq::new(
                3 * (steps + 1) as nat,
                |index: int| polygon_component(blades, index),
            ),
        decreases blades + 1 - steps,
    {
        vert_data.push(Scalar::TurnedX { steps, blades });
        vert_data.push(Scalar::TurnedY { steps, blades });
        vert_data.push(Scalar::Bits(ONE));
        steps = steps + 1;
    }
    let attributes: [AttrSize; 2] = [AttrSize::Vec2, AttrSize::Float];
    let builder = GeometryBuilder::new(vert_data).mode(GeometryType::TriangleFan).with_attributes(
        attributes.as_slice(),
    );
    proof {
        lemma_polygon_width(blades);
    }
    builder.build(vao, vbo)
}

/// The angle by which a vector was turned after `steps` steps of the
/// `blades`-th part of a full turn, in degrees times `blades`.
pub open spec fn turned_angle(steps: int) -> int {
    360 * steps
}

/// Whether two angles, both in degrees times `blades`, differ by whole turns
/// and so point the same way.
pub open spec fn same_direction(first: int, second: int, blades: int) -> bool {
    (first - second) % (360 * blades) == 0
}

/// Whether vertex `vertex` of the polygon lies on the rim, `steps` steps
/// after the first rim vertex.
pub open spec fn is_rim_vertex(blades: u32, vertex: int, steps: int) -> bool {
    &&& 0 <= steps <= u32::MAX
    &&& polygon_data(blades)[3 * vertex] == (Scalar::TurnedX { steps: steps as u32, blades })
    &&& polygon_data(blades)[3 * vertex + 1] == (Scalar::TurnedY { steps: steps as u32, blades })
    &&& polygon_data(blades)[3 * vertex + 2] == Scalar::Bits(ONE)
}

/// The polygon of a ghost with three or more blades is a closed fan. It has
/// `blades + 2` vertices. The first is the centre. The others lie on the rim,
/// each turned by `360 / blades` degrees against the one before it. The last
/// of them has gone round a full turn and points the same way as the first.
pub proof fn lemma_polygon_closed_fan(blades: u32)
    requires
        blades >= 3,
        blades + 2 <= SIZE_LIMIT,
    ensures
        polygon_data(blades).len() == 3 * (blades + 2),
        polygon_data(blades).subrange(0, 3) == seq![
            Scalar::Bits(ZERO),
            Scalar::Bits(ZERO),
            Scalar::Bits(ZERO),
        ],
        forall|vertex: int|
            1 <= vertex <= blades + 1 ==> #[trigger] is_rim_vertex(blades, vertex, vertex - 1),
        forall|vertex: int|
            1 <= vertex <= blades ==> turned_angle(vertex) - #[trigger] turned_angle(vertex - 1)
                == 360,
        same_direction(turned_angle(blades as int), turned_angle(0), blades as int),
{
    assert((360 * blades) % (360 * blades) == 0) by (nonlinear_arith)
        requires
            blades >= 3,
    ;
}

} // verus!
