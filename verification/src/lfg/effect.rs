use crate::gl_wrapper::command::{append_commands, push_command, Command, CommandView};
use crate::gl_wrapper::framebuffer::{clear_commands, pass_commands, Framebuffer, FramebufferView};
use crate::gl_wrapper::geometry::{Geometry, GeometryView};
use crate::gl_wrapper::value::{
    Matrix, Scalar, UniformValue, FIFTEEN, FIFTH, FIVE, FOUR_FIFTHS, HALF, MINUS_FOUR_FIFTHS,
    MINUS_TWO_FIFTHS, ONE, TWENTY,
};
use crate::lfg::flare::{default_flare, flare_commands, Flare, FlareStyle};
use crate::lfg::ghost::{default_ghost, dispersed_commands, ghost_commands, LensGhost};
use crate::lfg::shader_lib::ShaderLib;
use crate::lfg::LfgError;
use crate::window_state::WindowState;
use vstd::prelude::*;

verus! {

/// Pixels per unit of the resolution that the dispersion pass samples with.
pub const RESOLUTION_DIVISOR: u32 = 128;

/// Blade count that stands for a circular aperture.
pub const CIRCULAR_BLADES: u8 = 255;

/// Shape of the aperture.
#[derive(Debug, PartialEq, Eq, Clone, Copy, Structural)]
pub enum ApertureShape {
    /// A polygon with so many blades, three at least.
    Polygonal(u8),
    Circular,
}

impl ApertureShape {
    /// Whether the shape can be: a polygon has three blades at least.
    pub open spec fn well_formed(self) -> bool {
        self matches ApertureShape::Polygonal(blades) ==> blades >= 3
    }

    /// Number of rays that the shape gives the flare.
    pub open spec fn blade_count(self) -> u8 {
        match self {
            ApertureShape::Polygonal(blades) => blades,
            ApertureShape::Circular => CIRCULAR_BLADES,
        }
    }

    /// The shape with so many blades, if there is one: none is the circle,
    /// one or two make no polygon.
    pub open spec fn of_blade_count(value: u8) -> Option<ApertureShape> {
        if value == 0 {
            Some(ApertureShape::Circular)
        } else if value < 3 {
            None
        } else {
            Some(ApertureShape::Polygonal(value))
        }
    }

    /// Number of rays that the shape gives the flare.
    pub fn get_blade_count(&self) -> (count: u8)
        ensures
            count == self.blade_count(),
    {
        match self {
            ApertureShape::Polygonal(blades) => *blades,
            ApertureShape::Circular => CIRCULAR_BLADES,
        }
    }

    /// The shape with so many blades. One blade or two are refused.
    pub fn from_blade_count(value: u8) -> (shape: Result<Self, LfgError>)
        ensures
            match Self::of_blade_count(value) {
                Some(made) => shape == Ok::<Self, LfgError>(made) && made.well_formed(),
                None => shape matches Err(error) && error@ == "aperture shape"@,
            },
    {
        if value == 0 {
            Ok(ApertureShape::Circular)
        } else if value < 3 {
            Err(LfgError::InvalidEffectValue(String::from_str("aperture shape")))
        } else {
            Ok(ApertureShape::Polygonal(value))
        }
    }
}

/// A polygonal aperture keeps the number of blades it was made with.
pub proof fn lemma_blade_count_kept(value: u8)
    requires
        value >= 3,
    ensures
        ApertureShape::of_blade_count(value) matches Some(shape) && shape.blade_count() == value,
{
}

/// The flare, its ghosts and what they share.
#[derive(Debug, Clone, PartialEq, Eq)]
pub struct Effect {
    pub flare: Flare,
    /// The ghosts, in the order in which they are drawn.
    pub ghosts: Vec<LensGhost>,
    /// Turn of the aperture in radians, as a single-precision bit pattern.
    pub rotation: u32,
    pub aperture_shape: ApertureShape,
    /// Horizontal position of the flare in `[0, 1]`, as a bit pattern.
    pub pos_x: u32,
    /// Vertical position of the flare in `[0, 1]`, as a bit pattern.
    pub pos_y: u32,
    /// Samples that the dispersion pass takes per pixel.
    pub samples: u16,
    /// Whether the finished image is tonemapped.
    pub tonemap: bool,
}

/// All that one frame is made from.
pub struct Frame {
    pub flare: Flare,
    /// The ghosts, in the order in which they are drawn.
    pub ghosts: Seq<LensGhost>,
    /// Turn of the aperture in radians.
    pub rotation: u32,
    /// Number of rays of the flare.
    pub blades: u8,
    /// Position of the flare.
    pub position: (u32, u32),
    /// Samples that the dispersion pass takes per pixel.
    pub samples: u16,
    /// Program that draws the flare in its style.
    pub flare_program: u32,
    /// Program that draws the shape of a ghost.
    pub shape_program: u32,
    /// Program that copies a ghost with dispersion.
    pub dispersion_program: u32,
    /// Framebuffer in which the image is put together.
    pub main: u32,
    /// Framebuffer in which one ghost at a time is drawn.
    pub side: u32,
    /// Texture that is the colour attachment of the side framebuffer.
    pub side_color: u32,
    /// The quad that covers a whole target.
    pub quad: GeometryView,
    /// The polygon of a ghost.
    pub polygon: GeometryView,
    /// Width and height of the window in pixels.
    pub size: (u32, u32),
    /// Number of the frame.
    pub frame_num: u64,
}

/// One pass: the calls in `body` are made while `target` is bound.
pub struct Pass {
    pub target: u32,
    pub body: Seq<CommandView>,
}

/// The uniform that carries the aspect ratio of the window.
pub open spec fn aspect_ratio_uniform(program: u32, size: (u32, u32)) -> CommandView {
    CommandView::Uniform {
        program,
        name: "aspect_ratio"@,
        value: UniformValue::Float1(Scalar::Ratio(size.0, size.1)),
    }
}

/// The first pass of a frame: the main target is cleared.
pub open spec fn clear_pass(frame: Frame) -> Pass {
    Pass { target: frame.main, body: seq![CommandView::Clear] }
}

/// The calls that draw the shape of one ghost into a target that is bound
/// and cleared.
pub open spec fn shape_calls(frame: Frame, item: LensGhost) -> Seq<CommandView> {
    seq![
        CommandView::UseProgram { program: frame.shape_program },
        aspect_ratio_uniform(frame.shape_program, frame.size),
        CommandView::Uniform {
            program: frame.shape_program,
            name: "rotationMatrix"@,
            value: UniformValue::Matrix(Matrix::RotationZ { angle: frame.rotation }),
        },
    ] + ghost_commands(item, frame.shape_program, frame.position, frame.polygon)
}

/// The pass that draws the shape of one ghost into the cleared side target.
pub open spec fn shape_pass(frame: Frame, item: LensGhost) -> Pass {
    Pass { target: frame.side, body: seq![CommandView::Clear] + shape_calls(frame, item) }
}

/// The pass that copies one ghost from the side target into the main target,
/// with dispersion. The resolution scales with the window.
pub open spec fn dispersion_pass(frame: Frame, item: LensGhost) -> Pass {
    Pass {
        target: frame.main,
        body: seq![
            CommandView::UseProgram { program: frame.dispersion_program },
            CommandView::Uniform {
                program: frame.dispersion_program,
                name: "res"@,
                value: UniformValue::Float2(
                    Scalar::Ratio(frame.size.0, RESOLUTION_DIVISOR),
                    Scalar::Ratio(frame.size.1, RESOLUTION_DIVISOR),
                ),
            },
            CommandView::Uniform {
                program: frame.dispersion_program,
                name: "samples"@,
                value: UniformValue::Int1(frame.samples as i32),
            },
            CommandView::BindTextureAt { unit: 0, texture: frame.side_color },
        ] + dispersed_commands(
            item,
            frame.dispersion_program,
            frame.frame_num,
            frame.position,
            frame.quad,
        ),
    }
}

/// The last pass of a frame: the flare is drawn on top of the main target.
pub open spec fn flare_pass(frame: Frame) -> Pass {
    Pass {
        target: frame.main,
        body: seq![
            CommandView::UseProgram { program: frame.flare_program },
            CommandView::Uniform {
                program: frame.flare_program,
                name: "flare_position"@,
                value: UniformValue::Float2(
                    Scalar::Bits(frame.position.0),
                    Scalar::Bits(frame.position.1),
                ),
            },
            aspect_ratio_uniform(frame.flare_program, frame.size),
            CommandView::Uniform {
                program: frame.flare_program,
                name: "blades"@,
                value: UniformValue::Float1(Scalar::Count(frame.blades as u32)),
            },
            CommandView::Uniform {
                program: frame.flare_program,
                name: "texture_rotation"@,
                value: UniformValue::Matrix(Matrix::Rotation2 { angle: frame.rotation }),
            },
        ] + flare_commands(frame.flare, frame.flare_program, frame.quad),
    }
}

/// The two passes of each of the first `count` ghosts, ghost by ghost: its
/// shape into the side target, then its copy into the main target.
pub open spec fn ghost_passes(frame: Frame, count: nat) -> Seq<Pass> {
    Seq::new(
        2 * count,
        |k: int|
            if k % 2 == 0 {
                shape_pass(frame, frame.ghosts[k / 2])
            } else {
                dispersion_pass(frame, frame.ghosts[k / 2])
            },
    )
}

/// The passes of a frame, in their order: the main target is cleared, the
/// ghosts follow one by one, and the flare comes last.
pub open spec fn frame_passes(frame: Frame) -> Seq<Pass> {
    seq![clear_pass(frame)] + ghost_passes(frame, frame.ghosts.len()) + seq![flare_pass(frame)]
}

/// The calls of a list of passes, pass by pass. Every pass binds its target
/// first and the window's surface last.
pub open spec fn flatten(passes: Seq<Pass>) -> Seq<CommandView>
    decreases passes.len(),
{
    if passes.len() == 0 {
        Seq::empty()
    } else {
        flatten(passes.drop_last()) + pass_commands(passes.last().target, passes.last().body)
    }
}

/// The calls of a list of passes with one more pass behind it.
pub proof fn lemma_flatten_push(passes: Seq<Pass>, pass: Pass)
    ensures
        flatten(passes.push(pass)) == flatten(passes) + pass_commands(pass.target, pass.body),
{
    assert(passes.push(pass).drop_last() =~= passes);
}

/// The ghosts that an effect starts with.
pub open spec fn default_ghosts() -> Seq<LensGhost> {
    seq![
        default_ghost(),
        LensGhost {
            offset: FIFTH,
            size: FIVE,
            color: [ONE, HALF, HALF, ONE],
            ..default_ghost()
        },
        LensGhost { offset: MINUS_FOUR_FIFTHS, size: TWENTY, ..default_ghost() },
        LensGhost { offset: MINUS_TWO_FIFTHS, size: FIFTEEN, ..default_ghost() },
    ]
}

/// Whether a clear is the first call of a pass and occurs nowhere else in it.
pub open spec fn clears_first_only(body: Seq<CommandView>) -> bool {
    &&& body.len() > 0
    &&& forall|at: int| 0 <= at < body.len() ==> ((#[trigger] body[at]) is Clear <==> at == 0)
}

/// Whether a pass clears nothing.
pub open spec fn never_clears(body: Seq<CommandView>) -> bool {
    forall|at: int| 0 <= at < body.len() ==> !((#[trigger] body[at]) is Clear)
}

/// Whether a draw call is the last call of a pass and occurs nowhere else in
/// it.
pub open spec fn draws_last_only(body: Seq<CommandView>) -> bool {
    &&& body.len() > 0
    &&& forall|at: int|
        0 <= at < body.len() ==> ((#[trigger] body[at]) is DrawArrays <==> at == body.len() - 1)
}

/// What each kind of pass does to its target. The first pass clears and
/// draws nothing. The pass for the shape of a ghost clears once, before
/// anything else, and draws once, at its end. The pass that copies a ghost
/// and the pass of the flare clear nothing and draw once, at their end.
pub proof fn lemma_pass_kinds(frame: Frame, item: LensGhost)
    ensures
        clear_pass(frame).target == frame.main,
        clear_pass(frame).body == seq![CommandView::Clear],
        clears_first_only(shape_pass(frame, item).body),
        draws_last_only(shape_pass(frame, item).body),
        never_clears(dispersion_pass(frame, item).body),
        draws_last_only(dispersion_pass(frame, item).body),
        never_clears(flare_pass(frame).body),
        draws_last_only(flare_pass(frame).body),
{
}

/// The passes of a frame follow a fixed order. With `n` ghosts there are
/// `2 * n + 2` of them: the clear of the main target; for each ghost, in the
/// order of the ghosts, first the pass for its shape into the side target
/// and right after it the pass that copies it into the main target; and the
/// pass of the flare, once, at the end.
pub proof fn lemma_frame_order(frame: Frame)
    ensures
        frame_passes(frame).len() == 2 * frame.ghosts.len() + 2,
        frame_passes(frame)[0] == clear_pass(frame),
        forall|i: int|
            0 <= i < frame.ghosts.len() ==> {
                &&& #[trigger] frame_passes(frame)[2 * i + 1] == shape_pass(frame, frame.ghosts[i])
                &&& frame_passes(frame)[2 * i + 1].target == frame.side
            },
        forall|i: int|
            0 <= i < frame.ghosts.len() ==> {
                &&& #[trigger] frame_passes(frame)[2 * i + 2] == dispersion_pass(
                    frame,
                    frame.ghosts[i],
                )
                &&& frame_passes(frame)[2 * i + 2].target == frame.main
            },
        frame_passes(frame)[2 * (frame.ghosts.len() as int) + 1] == flare_pass(frame),
{
}

/// Whatever the ghosts, a frame ends with the window's surface bound.
pub proof fn lemma_frame_ends_on_window(frame: Frame)
    ensures
        flatten(frame_passes(frame)).len() > 0,
        flatten(frame_passes(frame)).last() == (CommandView::BindFramebuffer { id: 0 }),
{
    let before = seq![clear_pass(frame)] + ghost_passes(frame, frame.ghosts.len());
    lemma_flatten_push(before, flare_pass(frame));
}

/// A frame without ghosts is two passes into the main target: the clear and
/// the flare. The side target is not touched.
pub proof fn lemma_frame_without_ghosts(frame: Frame)
    requires
        frame.ghosts.len() == 0,
    ensures
        frame_passes(frame) == seq![clear_pass(frame), flare_pass(frame)],
        flatten(frame_passes(frame)) == pass_commands(frame.main, seq![CommandView::Clear])
            + pass_commands(frame.main, flare_pass(frame).body),
{
    lemma_flatten_push(Seq::empty(), clear_pass(frame));
    lemma_flatten_push(seq![clear_pass(frame)], flare_pass(frame));
    assert(seq![clear_pass(frame)].push(flare_pass(frame)) =~= seq![
        clear_pass(frame),
        flare_pass(frame),
    ]);
}

impl Effect {
    /// The effect as it starts: the default flare at `(0.8, 0.8)` with four
    /// ghosts behind an aperture of eight blades turned by `0.2`, eight
    /// samples, tonemapped.
    pub fn new() -> (effect: Self)
        ensures
            effect.flare == default_flare(),
            effect.ghosts@ == default_ghosts(),
            effect.rotation == FIFTH,
            effect.aperture_shape == ApertureShape::Polygonal(8),
            effect.pos_x == FOUR_FIFTHS,
            effect.pos_y == FOUR_FIFTHS,
            effect.samples == 8,
            effect.tonemap,
    {
        let mut ghosts: Vec<LensGhost> = Vec::new();
        ghosts.push(LensGhost::new());
        let mut second = LensGhost::new();
        second.offset = FIFTH;
        second.size = FIVE;
        second.color = [ONE, HALF, HALF, ONE];
        ghosts.push(second);
        let mut third = LensGhost::new();
        third.offset = MINUS_FOUR_FIFTHS;
        third.size = TWENTY;
        ghosts.push(third);
        let mut fourth = LensGhost::new();
        fourth.offset = MINUS_TWO_FIFTHS;
        fourth.size = FIFTEEN;
        ghosts.push(fourth);
        Self {
            flare: Flare::new(),
            ghosts,
            rotation: FIFTH,
            aperture_shape: ApertureShape::Polygonal(8),
            pos_x: FOUR_FIFTHS,
            pos_y: FOUR_FIFTHS,
            samples: 8,
            tonemap: true,
        }
    }

    /// What a frame of the effect is made from, given the programs, the
    /// targets, the geometries and the state of the window.
    pub open spec fn frame(
        self,
        shader_lib: ShaderLib,
        main_fb: FramebufferView,
        side_fb: FramebufferView,
        quad: GeometryView,
        ghost_geo: GeometryView,
        state: WindowState,
    ) -> Frame {
        Frame {
            flare: self.flare,
            ghosts: self.ghosts@,
            rotation: self.rotation,
            blades: self.aperture_shape.blade_count(),
            position: (self.pos_x, self.pos_y),
            samples: self.samples,
            flare_program: match self.flare.style {
                FlareStyle::Normal => shader_lib.flare@,
                FlareStyle::Anamorphic => shader_lib.flare_anam@,
            },
            shape_program: shader_lib.ghost_shape@,
            dispersion_program: shader_lib.dispersion@,
            main: main_fb.id,
            side: side_fb.id,
            side_color: side_fb.color,
            quad,
            polygon: ghost_geo,
            size: state.size,
            frame_num: state.frame_num,
        }
    }

    /// Moves the flare.
    pub fn set_position(&mut self, position: (u32, u32))
        ensures
            *final(self) == (Effect { pos_x: position.0, pos_y: position.1, ..*old(self) }),
    {
        self.pos_x = position.0;
        self.pos_y = position.1;
    }

    /// The calls that draw one frame of the effect into the main target.
    ///
    /// The main target is cleared. Then, ghost by ghost, the shape of the
    /// ghost is drawn into the cleared side target and copied from there into
    /// the main target with dispersion. The flare is drawn last. Every pass
    /// leaves the window's surface bound.
    pub fn draw(
        &self,
        shader_lib: &ShaderLib,
        main_fb: &mut Framebuffer,
        side_fb: &mut Framebuffer,
        quad: &Geometry,
        ghost_geo: &Geometry,
        state: &WindowState,
    ) -> (commands: Vec<Command>)
        ensures
            final(main_fb)@ == (FramebufferView { bound: false, ..old(main_fb)@ }),
            final(side_fb)@ == if self.ghosts@.len() == 0 {
                old(side_fb)@
            } else {
                FramebufferView { bound: false, ..old(side_fb)@ }
            },
            commands.deep_view() == flatten(
                frame_passes(
                    self.frame(*shader_lib, old(main_fb)@, old(side_fb)@, quad@, ghost_geo@, *state),
                ),
            ),
    {
        let ghost frame = self.frame(
            *shader_lib,
            old(main_fb)@,
            old(side_fb)@,
            quad@,
            ghost_geo@,
            *state,
        );
        let position = (self.pos_x, self.pos_y);
        let size = state.size;

        let mut commands = main_fb.draw_with(
            |fb: &Framebuffer| -> (body: Vec<Command>)
                ensures
                    body.deep_view() == clear_commands(fb@)
                { fb.clear() },
        );
        proof {
            lemma_flatten_push(Seq::empty(), clear_pass(frame));
        }

        let mut i: usize = 0;
        while i < self.ghosts.len()
            invariant
                i <= self.ghosts@.len(),
                frame == self.frame(
                    *shader_lib,
                    old(main_fb)@,
                    old(side_fb)@,
                    quad@,
                    ghost_geo@,
                    *state,
                ),
                position == (self.pos_x, self.pos_y),
                size == state.size,
                main_fb@ == (FramebufferView { bound: false, ..old(main_fb)@ }),
                side_fb@ == if i == 0 {
                    old(side_fb)@
                } else {
                    FramebufferView { bound: false, ..old(side_fb)@ }
                },
                commands.deep_view() == flatten(
                    seq![clear_pass(frame)] + ghost_passes(frame, i as nat),
                ),
            decreases self.ghosts@.len() - i,
        {
            let item = &self.ghosts[i];
            let ghost before = seq![clear_pass(frame)] + ghost_passes(frame, i as nat);

            let shape = side_fb.draw_with(
                |fb: &Framebuffer| -> (body: Vec<Command>)
                    ensures
                        body.deep_view() == clear_commands(fb@) + shape_calls(frame, *item)
                    {
                        let mut body = fb.clear();
                        push_command(&mut body, shader_lib.ghost_shape.bind());
                        push_command(
                            &mut body,
                            shader_lib.ghost_shape.set_uniform(
                                "aspect_ratio",
                                UniformValue::Float1(Scalar::Ratio(size.0, size.1)),
                            ),
                        );
                        push_command(
                            &mut body,
                            shader_lib.ghost_shape.set_uniform(
                                "rotationMatrix",
                                UniformValue::Matrix(Matrix::RotationZ { angle: self.rotation }),
                            ),
                        );
                        append_commands(
                            &mut body,
                            item.draw(&shader_lib.ghost_shape, state, position, ghost_geo),
                        );
                        assert(body.deep_view() =~= clear_commands(fb@) + shape_calls(
                            frame,
                            *item,
                        ));
                        body
                    },
            );
            proof {
                lemma_flatten_push(before, shape_pass(frame, *item));
            }
            append_commands(&mut commands, shape);

            let side: &Framebuffer = side_fb;
            let copy = main_fb.draw_with(
                |_fb: &Framebuffer| -> (body: Vec<Command>)
                    ensures
                        body.deep_view() == dispersion_pass(frame, *item).body
                    {
                        let mut body: Vec<Command> = Vec::new();
                        push_command(&mut body, shader_lib.dispersion.bind());
                        push_command(
                            &mut body,
                            shader_lib.dispersion.set_uniform(
                                "res",
                                UniformValue::Float2(
                                    Scalar::Ratio(size.0, RESOLUTION_DIVISOR),
                                    Scalar::Ratio(size.1, RESOLUTION_DIVISOR),
                                ),
                            ),
                        );
                        push_command(
                            &mut body,
                            shader_lib.dispersion.set_uniform(
                                "samples",
                                UniformValue::Int1(self.samples as i32),
                            ),
                        );
                        push_command(&mut body, side.bind_as_color_texture(0));
                        append_commands(
                            &mut body,
                            item.draw_dispersed(&shader_lib.dispersion, state, position, quad),
                        );
                        assert(body.deep_view() =~= dispersion_pass(frame, *item).body);
                        body
                    },
            );
            proof {
                lemma_flatten_push(
                    before.push(shape_pass(frame, *item)),
                    dispersion_pass(frame, *item),
                );
                assert(before.push(shape_pass(frame, *item)).push(dispersion_pass(frame, *item))
                    =~= seq![clear_pass(frame)] + ghost_passes(frame, (i + 1) as nat));
            }
            append_commands(&mut commands, copy);
            i += 1;
        }

        let shader = match self.flare.style {
            FlareStyle::Normal => &shader_lib.flare,
            FlareStyle::Anamorphic => &shader_lib.flare_anam,
        };
        let blades = self.aperture_shape.get_blade_count();
        let last = main_fb.draw_with(
            |_fb: &Framebuffer| -> (body: Vec<Command>)
                ensures
                    body.deep_view() == flare_pass(frame).body
                {
                    let mut body: Vec<Command> = Vec::new();
                    push_command(&mut body, shader.bind());
                    push_command(
                        &mut body,
                        shader.set_uniform(
                            "flare_position",
                            UniformValue::Float2(
                                Scalar::Bits(position.0),
                                Scalar::Bits(position.1),
                            ),
                        ),
                    );
                    push_command(
                        &mut body,
                        shader.set_uniform(
                            "aspect_ratio",
                            UniformValue::Float1(Scalar::Ratio(size.0, size.1)),
                        ),
                    );
                    push_command(
                        &mut body,
                        shader.set_uniform(
                            "blades",
                            UniformValue::Float1(Scalar::Count(blades as u32)),
                        ),
                    );
                    push_command(
                        &mut body,
                        shader.set_uniform(
                            "texture_rotation",
                            UniformValue::Matrix(Matrix::Rotation2 { angle: self.rotation }),
                        ),
                    );
                    append_commands(&mut body, self.flare.draw(shader, quad));
                    assert(body.deep_view() =~= flare_pass(frame).body);
                    body
                },
        );
        proof {
            let before = seq![clear_pass(frame)] + ghost_passes(frame, frame.ghosts.len());
            lemma_flatten_push(before, flare_pass(frame));
            assert(before.push(flare_pass(frame)) =~= frame_passes(frame));
        }
        append_commands(&mut commands, last);
        commands
    }
}

} // verus!
