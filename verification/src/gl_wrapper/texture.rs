use crate::gl_wrapper::command::{push_command, Command, CommandView};
use vstd::prelude::*;

verus! {

/// Layout of the pixels of a texture.
#[derive(Debug, Clone, Copy, PartialEq, Eq, PartialOrd, Ord, Hash, Structural)]
pub enum TextureFormat {
    Rgb,
    Rgba,
    Srgba,
    R8,
}

impl TextureFormat {
    /// Number of elements that one pixel takes in a pixel buffer.
    pub open spec fn channels(self) -> nat {
        match self {
            TextureFormat::Rgb => 3,
            TextureFormat::Rgba => 4,
            TextureFormat::Srgba => 4,
            TextureFormat::R8 => 1,
        }
    }

    /// The context's numeric code of the layout of a pixel buffer.
    pub open spec fn code(self) -> u32 {
        match self {
            TextureFormat::Rgb => 0x1907,
            TextureFormat::Rgba => 0x1908,
            TextureFormat::Srgba => 0x1908,
            TextureFormat::R8 => 0x1903,
        }
    }

    /// The context's numeric code of the format in which the texture is
    /// stored.
    pub open spec fn internal_code(self) -> u32 {
        match self {
            TextureFormat::Rgb => 0x8058,
            TextureFormat::Rgba => 0x8058,
            TextureFormat::Srgba => 0x8C42,
            TextureFormat::R8 => 0x8229,
        }
    }

    /// The context's numeric code of the format in which the texture is
    /// stored: eight bits a channel, with red, green, blue and alpha unless
    /// the layout has red alone, and non-linear colour for `Srgba`.
    pub fn internal_format(self) -> (code: u32)
        ensures
            code == self.internal_code(),
    {
        match self {
            TextureFormat::Rgb => 0x8058,
            TextureFormat::Rgba => 0x8058,
            TextureFormat::Srgba => 0x8C42,
            TextureFormat::R8 => 0x8229,
        }
    }
}

impl From<TextureFormat> for u32 {
    fn from(tf: TextureFormat) -> (code: u32) {
        match tf {
            TextureFormat::Rgb => 0x1907,
            TextureFormat::Rgba => 0x1908,
            TextureFormat::Srgba => 0x1908,
            TextureFormat::R8 => 0x1903,
        }
    }
}

impl vstd::std_specs::convert::FromSpecImpl<TextureFormat> for u32 {
    open spec fn obeys_from_spec() -> bool {
        true
    }

    open spec fn from_spec(tf: TextureFormat) -> u32 {
        tf.code()
    }
}

/// An element type of pixel buffers.
pub trait TexStorage {
    /// The context's numeric code of the element type.
    spec fn type_code() -> u32;

    /// The context's numeric code of the element type.
    fn gl_type() -> (code: u32)
        ensures
            code == Self::type_code(),
    ;
}

/// Bytes are unsigned bytes.
impl TexStorage for u8 {
    open spec fn type_code() -> u32 {
        0x1401
    }

    fn gl_type() -> (code: u32) {
        0x1401
    }
}

/// Words are the bit patterns of single-precision numbers.
impl TexStorage for u32 {
    open spec fn type_code() -> u32 {
        0x1406
    }

    fn gl_type() -> (code: u32) {
        0x1406
    }
}

/// Number of elements in the pixel buffer of a texture.
pub open spec fn expected_len(format: TextureFormat, width: u32, height: u32) -> nat {
    (width * height * format.channels()) as nat
}

/// The calls that create a texture from a pixel buffer: immutable storage of
/// one level, then the pixels.
pub open spec fn texture_commands(
    tex_id: u32,
    width: u32,
    height: u32,
    len: usize,
    data_type: u32,
    format: TextureFormat,
) -> Seq<CommandView> {
    seq![
        CommandView::BindTexture { texture: tex_id },
        CommandView::AllocateStorage { format, width, height },
        CommandView::Upload { format, data_type, width, height, len },
    ]
}

/// A two-dimensional texture on the GPU.
#[derive(Debug, PartialEq, Eq)]
pub struct Texture2d {
    tex_id: u32,
}

impl View for Texture2d {
    type V = u32;

    /// Name of the texture.
    closed spec fn view(&self) -> u32 {
        self.tex_id
    }
}

impl Texture2d {
    /// Whether a pixel buffer of `len` elements fills a texture of this size
    /// and layout exactly.
    pub fn fits(len: usize, width: u32, height: u32, format: TextureFormat) -> (fits: bool)
        ensures
            fits == (len == expected_len(format, width, height)),
    {
        let channels: u128 = match format {
            TextureFormat::Rgb => 3,
            TextureFormat::Rgba => 4,
            TextureFormat::Srgba => 4,
            TextureFormat::R8 => 1,
        };
        assert(width * height <= 0xFFFF_FFFF * 0xFFFF_FFFF) by (nonlinear_arith)
            requires
                width <= 0xFFFF_FFFF,
                height <= 0xFFFF_FFFF,
        ;
        let pixels: u128 = (width as u128) * (height as u128);
        len as u128 == pixels * channels
    }

    /// The texture `tex_id`, fresh from the context, filled from a pixel
    /// buffer, with the calls that fill it. The buffer has to fill the
    /// texture exactly.
    pub fn new<S: TexStorage>(
        tex_id: u32,
        width: u32,
        height: u32,
        data: &[S],
        format: TextureFormat,
    ) -> (made: (Self, Vec<Command>))
        requires
            data@.len() == expected_len(format, width, height),
        ensures
            made.0@ == tex_id,
            made.1.deep_view() == texture_commands(
                tex_id,
                width,
                height,
                data@.len() as usize,
                S::type_code(),
                format,
            ),
    {
        let mut commands: Vec<Command> = Vec::new();
        push_command(&mut commands, Command::BindTexture { texture: tex_id });
        push_command(&mut commands, Command::AllocateStorage { format, width, height });
        push_command(
            &mut commands,
            Command::Upload { format, data_type: S::gl_type(), width, height, len: data.len() },
        );
        (Self { tex_id }, commands)
    }

    /// Name of the texture.
    pub fn id(&self) -> (id: u32)
        ensures
            id == self@,
    {
        self.tex_id
    }

    /// Gives the texture up: the command that deletes it.
    pub fn release(self) -> (command: Command)
        ensures
            command == (Command::DeleteTexture { id: self@ }),
    {
        Command::DeleteTexture { id: self.tex_id }
    }

    /// The command that binds the texture for sampling on a texture unit.
    pub fn bind(&self, unit: u8) -> (command: Command)
        ensures
            command == (Command::BindTextureAt { unit, texture: self@ }),
    {
        Command::BindTextureAt { unit, texture: self.tex_id }
    }
}

} // verus!
