use crate::gl_wrapper::shader::{Shader, ShaderBuilder, ShaderBuilderView, ShaderCompilationError, SHADER_VERSION};
use vstd::prelude::*;

verus! {

/// The programs that the effect draws with.
#[derive(Debug, PartialEq, Eq)]
pub struct ShaderLib {
    /// Draws the flare in its normal style.
    pub flare: Shader,
    /// Draws the flare in its anamorphic style.
    pub flare_anam: Shader,
    /// Draws the shape of a ghost.
    pub ghost_shape: Shader,
    /// Copies a ghost with dispersion.
    pub dispersion: Shader,
    /// Maps the finished image to what the display can show.
    pub tonemap: Shader,
}

/// One of the programs of the effect.
#[derive(Debug, Clone, Copy, PartialEq, Eq, Structural)]
pub enum Program {
    Flare,
    FlareAnamorphic,
    GhostShape,
    Dispersion,
    Tonemap,
}

/// The texts that the programs are made of.
#[derive(Debug, Clone, Copy, PartialEq, Eq)]
pub struct ShaderSources<'a> {
    /// Shared by every stage of every program.
    pub common: &'a str,
    /// Vertex stage of every pass that covers the whole target.
    pub quad_vert: &'a str,
    pub flare_frag: &'a str,
    pub ghost_vert: &'a str,
    pub ghost_frag: &'a str,
    pub dispersion_frag: &'a str,
    pub tonemap_frag: &'a str,
}

/// What the builder of a program holds. Every program shares the language
/// version and the common text; the programs that cover the whole target
/// share their vertex stage; the anamorphic flare is the flare with the
/// feature `ANAMORPHIC` switched on.
pub open spec fn recipe(program: Program, sources: ShaderSources) -> ShaderBuilderView {
    ShaderBuilderView {
        vert: match program {
            Program::GhostShape => sources.ghost_vert@,
            _ => sources.quad_vert@,
        },
        frag: match program {
            Program::Flare => sources.flare_frag@,
            Program::FlareAnamorphic => sources.flare_frag@,
            Program::GhostShape => sources.ghost_frag@,
            Program::Dispersion => sources.dispersion_frag@,
            Program::Tonemap => sources.tonemap_frag@,
        },
        includes: seq![SHADER_VERSION@, sources.common@],
        defines: match program {
            Program::FlareAnamorphic => seq!["ANAMORPHIC"@],
            _ => Seq::empty(),
        },
    }
}

impl ShaderLib {
    /// The builder of one of the programs.
    pub fn builder<'a>(program: Program, sources: &ShaderSources<'a>) -> (builder: ShaderBuilder<'a>)
        ensures
            builder@ == recipe(program, *sources),
    {
        let (vert, frag) = match program {
            Program::Flare => (sources.quad_vert, sources.flare_frag),
            Program::FlareAnamorphic => (sources.quad_vert, sources.flare_frag),
            Program::GhostShape => (sources.ghost_vert, sources.ghost_frag),
            Program::Dispersion => (sources.quad_vert, sources.dispersion_frag),
            Program::Tonemap => (sources.quad_vert, sources.tonemap_frag),
        };
        let mut builder = ShaderBuilder::new(vert, frag);
        builder.with_common_code(sources.common);
        match program {
            Program::FlareAnamorphic => {
                builder.with_define("ANAMORPHIC");
            },
            _ => {},
        }
        assert(builder@.includes =~= recipe(program, *sources).includes);
        builder
    }

    /// The library of the five programs, or the error of the first of them
    /// that was not built, in the order flare, anamorphic flare, ghost shape,
    /// dispersion, tonemap.
    pub fn new(
        flare: Result<Shader, ShaderCompilationError>,
        flare_anam: Result<Shader, ShaderCompilationError>,
        ghost_shape: Result<Shader, ShaderCompilationError>,
        dispersion: Result<Shader, ShaderCompilationError>,
        tonemap: Result<Shader, ShaderCompilationError>,
    ) -> (lib: Result<Self, ShaderCompilationError>)
        ensures
            lib == match (flare, flare_anam, ghost_shape, dispersion, tonemap) {
                (Err(error), _, _, _, _) => Err::<Self, ShaderCompilationError>(error),
                (Ok(_), Err(error), _, _, _) => Err::<Self, ShaderCompilationError>(error),
                (Ok(_), Ok(_), Err(error), _, _) => Err::<Self, ShaderCompilationError>(error),
                (Ok(_), Ok(_), Ok(_), Err(error), _) => Err::<Self, ShaderCompilationError>(error),
                (Ok(_), Ok(_), Ok(_), Ok(_), Err(error)) => Err::<Self, ShaderCompilationError>(
                    error,
                ),
                (Ok(flare), Ok(flare_anam), Ok(ghost_shape), Ok(dispersion), Ok(tonemap)) => Ok::<
                    Self,
                    ShaderCompilationError,
                >(ShaderLib { flare, flare_anam, ghost_shape, dispersion, tonemap }),
            },
    {
        let flare = match flare {
            Ok(shader) => shader,
            Err(error) => {
                return Err(error);
            },
        };
        let flare_anam = match flare_anam {
            Ok(shader) => shader,
            Err(error) => {
                return Err(error);
            },
        };
        let ghost_shape = match ghost_shape {
            Ok(shader) => shader,
            Err(error) => {
                return Err(error);
            },
        };
        let dispersion = match dispersion {
            Ok(shader) => shader,
            Err(error) => {
                return Err(error);
            },
        };
        let tonemap = match tonemap {
            Ok(shader) => shader,
            Err(error) => {
                return Err(error);
            },
        };
        Ok(Self { flare, flare_anam, ghost_shape, dispersion, tonemap })
    }
}

} // verus!
