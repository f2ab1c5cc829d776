use crate::gl_wrapper::command::{append_commands, push_command, Command, CommandView};
use crate::gl_wrapper::geometry::{draw_commands, Geometry, GeometryView};
use crate::gl_wrapper::shader::Shader;
use crate::gl_wrapper::value::{Scalar, UniformValue, FIVE, HALF, ONE};
use vstd::prelude::*;

verus! {

/// Shape of the flare.
#[derive(Debug, Clone, Copy, PartialEq, Eq, Hash, Structural)]
pub enum FlareStyle {
    Normal,
    Anamorphic,
}

/// Looks of the flare. Every number is a single-precision bit pattern.
#[derive(Debug, Clone, Copy, PartialEq, Eq)]
pub struct Flare {
    /// Red, green, blue and alpha.
    pub color: [u32; 4],
    pub intensity: u32,
    pub size: u32,
    pub ray_intensity: u32,
    pub style: FlareStyle,
}

/// The flare that an effect starts with: reddish, of unit intensity and size
/// five, in the normal style.
pub open spec fn default_flare() -> Flare {
    Flare {
        color: [ONE, HALF, HALF, ONE],
        intensity: ONE,
        ray_intensity: ONE,
        size: FIVE,
        style: FlareStyle::Normal,
    }
}

/// The calls that draw a flare with a program that is current already: its
/// four uniforms, then the quad.
pub open spec fn flare_commands(flare: Flare, program: u32, quad: GeometryView) -> Seq<CommandView> {
    seq![
        CommandView::Uniform {
            program,
            name: "color"@,
            value: UniformValue::Float4(
                Scalar::Bits(flare.color[0]),
                Scalar::Bits(flare.color[1]),
                Scalar::Bits(flare.color[2]),
                Scalar::Bits(flare.color[3]),
            ),
        },
        CommandView::Uniform {
            program,
            name: "intensity"@,
            value: UniformValue::Float1(Scalar::Bits(flare.intensity)),
        },
        CommandView::Uniform {
            program,
            name: "size"@,
            value: UniformValue::Float1(Scalar::Bits(flare.size)),
        },
        CommandView::Uniform {
            program,
            name: "ray_intensity"@,
            value: UniformValue::Float1(Scalar::Bits(flare.ray_intensity)),
        },
    ] + draw_commands(quad)
}

impl Flare {
    /// A reddish flare of unit intensity and size five, in the normal style.
    pub fn new() -> (flare: Self)
        ensures
            flare == default_flare(),
    {
        Self {
            color: [ONE, HALF, HALF, ONE],
            intensity: ONE,
            ray_intensity: ONE,
            size: FIVE,
            style: FlareStyle::Normal,
        }
    }

    /// The calls that draw the flare over the whole target with a program
    /// that is current already.
    pub fn draw(&self, shader: &Shader, quad: &Geometry) -> (commands: Vec<Command>)
        ensures
            commands.deep_view() == flare_commands(*self, shader@, quad@),
    {
        let mut commands: Vec<Command> = Vec::new();
        push_command(
            &mut commands,
            shader.set_uniform(
                "color",
                UniformValue::Float4(
                    Scalar::Bits(self.color[0]),
                    Scalar::Bits(self.color[1]),
                    Scalar::Bits(self.color[2]),
                    Scalar::Bits(self.color[3]),
                ),
            ),
        );
        push_command(
            &mut commands,
            shader.set_uniform("intensity", UniformValue::Float1(Scalar::Bits(self.intensity))),
        );
        push_command(
            &mut commands,
            shader.set_uniform("size", UniformValue::Float1(Scalar::Bits(self.size))),
        );
        push_command(
            &mut commands,
            shader.set_uniform(
                "ray_intensity",
                UniformValue::Float1(Scalar::Bits(self.ray_intensity)),
            ),
        );
        append_commands(&mut commands, quad.draw());
        commands
    }
}

} // verus!
