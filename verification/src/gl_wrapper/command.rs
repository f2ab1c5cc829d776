use crate::gl_wrapper::geometry::{AttrSize, GeometryType};
use crate::gl_wrapper::state::Blend;
use crate::gl_wrapper::texture::TextureFormat;
use crate::gl_wrapper::value::{Scalar, UniformValue};
use vstd::prelude::*;

verus! {

/// One step for the graphics context to carry out.
///
/// Object names are the integers the context handed out; `0` always names the
/// default object of its kind (the window's own surface for a framebuffer).
#[derive(Clone, Debug, PartialEq, Eq)]
pub enum Command {
    /// Make the framebuffer the destination of the draw calls that follow.
    BindFramebuffer { id: u32 },
    /// Clear the colour attachment of the bound framebuffer to opaque black.
    Clear,
    /// Attach the 2D texture as the only colour attachment of the bound
    /// framebuffer.
    AttachColorTexture { texture: u32 },
    /// Ask whether the bound framebuffer is complete; the answer is judged by
    /// `Framebuffer::is_complete`.
    CheckFramebufferStatus,
    /// Bind the 2D texture on the texture unit that is active.
    BindTexture { texture: u32 },
    /// Make the texture unit active and bind the 2D texture on it.
    BindTextureAt { unit: u8, texture: u32 },
    /// Give the bound texture storage of this size in the internal format
    /// with this numeric code, without contents.
    AllocateImage { internal_format: u32, width: u32, height: u32 },
    /// Let the bound texture be sampled with linear interpolation, minified
    /// and magnified.
    LinearFiltering,
    /// Give the bound texture one level of immutable storage, in the internal
    /// format that goes with `format`.
    AllocateStorage { format: TextureFormat, width: u32, height: u32 },
    /// Fill the whole bound texture from the caller's pixel buffer of `len`
    /// elements, each of the element type `data_type`.
    Upload { format: TextureFormat, data_type: u32, width: u32, height: u32, len: usize },
    /// Bind the vertex array object.
    BindVertexArray { id: u32 },
    /// Bind the vertex buffer object.
    BindBuffer { id: u32 },
    /// Copy the numbers into the bound vertex buffer, for static drawing.
    BufferData { data: Vec<Scalar> },
    /// Describe vertex attribute `index` of the bound buffer and switch it on:
    /// so many single-precision components, `stride` bytes from one vertex to
    /// the next, starting `offset` bytes into a vertex.
    VertexAttribute { index: u32, components: AttrSize, stride: u32, offset: u32 },
    /// Draw `count` vertices of the bound vertex array, from the first one.
    DrawArrays { mode: GeometryType, count: u32 },
    /// Make the program current.
    UseProgram { program: u32 },
    /// Look the uniform up by name in the program and set it.
    Uniform { program: u32, name: String, value: UniformValue },
    /// Switch blending on with the given factors, or off.
    Blend { blend: Blend },
    /// Set the viewport rectangle.
    Viewport { x: u32, y: u32, width: u32, height: u32 },
    /// Delete the framebuffer.
    DeleteFramebuffer { id: u32 },
    /// Delete the texture.
    DeleteTexture { id: u32 },
    /// Delete the vertex array object.
    DeleteVertexArray { id: u32 },
    /// Delete the vertex buffer object.
    DeleteBuffer { id: u32 },
    /// Delete the program.
    DeleteProgram { id: u32 },
}

/// What a [`Command`] says, with its text and buffers as sequences.
pub enum CommandView {
    BindFramebuffer { id: u32 },
    Clear,
    AttachColorTexture { texture: u32 },
    CheckFramebufferStatus,
    BindTexture { texture: u32 },
    BindTextureAt { unit: u8, texture: u32 },
    AllocateImage { internal_format: u32, width: u32, height: u32 },
    LinearFiltering,
    AllocateStorage { format: TextureFormat, width: u32, height: u32 },
    Upload { format: TextureFormat, data_type: u32, width: u32, height: u32, len: usize },
    BindVertexArray { id: u32 },
    BindBuffer { id: u32 },
    BufferData { data: Seq<Scalar> },
    VertexAttribute { index: u32, components: AttrSize, stride: u32, offset: u32 },
    DrawArrays { mode: GeometryType, count: u32 },
    UseProgram { program: u32 },
    Uniform { program: u32, name: Seq<char>, value: UniformValue },
    Blend { blend: Blend },
    Viewport { x: u32, y: u32, width: u32, height: u32 },
    DeleteFramebuffer { id: u32 },
    DeleteTexture { id: u32 },
    DeleteVertexArray { id: u32 },
    DeleteBuffer { id: u32 },
    DeleteProgram { id: u32 },
}

impl DeepView for Command {
    type V = CommandView;

    open spec fn deep_view(&self) -> CommandView {
        match *self {
            Command::BindFramebuffer { id } => CommandView::BindFramebuffer { id },
            Command::Clear => CommandView::Clear,
            Command::AttachColorTexture { texture } => CommandView::AttachColorTexture { texture },
            Command::CheckFramebufferStatus => CommandView::CheckFramebufferStatus,
            Command::BindTexture { texture } => CommandView::BindTexture { texture },
            Command::BindTextureAt { unit, texture } => CommandView::BindTextureAt { unit, texture },
            Command::AllocateImage { internal_format, width, height } => {
                CommandView::AllocateImage { internal_format, width, height }
            },
            Command::LinearFiltering => CommandView::LinearFiltering,
            Command::AllocateStorage { format, width, height } => CommandView::AllocateStorage {
                format,
                width,
                height,
            },
            Command::Upload { format, data_type, width, height, len } => CommandView::Upload {
                format,
                data_type,
                width,
                height,
                len,
            },
            Command::BindVertexArray { id } => CommandView::BindVertexArray { id },
            Command::BindBuffer { id } => CommandView::BindBuffer { id },
            Command::BufferData { data } => CommandView::BufferData { data: data@ },
            Command::VertexAttribute { index, components, stride, offset } => {
                CommandView::VertexAttribute { index, components, stride, offset }
            },
            Command::DrawArrays { mode, count } => CommandView::DrawArrays { mode, count },
            Command::UseProgram { program } => CommandView::UseProgram { program },
            Command::Uniform { program, name, value } => CommandView::Uniform {
                program,
                name: name@,
                value,
            },
            Command::Blend { blend } => CommandView::Blend { blend },
            Command::Viewport { x, y, width, height } => CommandView::Viewport {
                x,
                y,
                width,
                height,
            },
            Command::DeleteFramebuffer { id } => CommandView::DeleteFramebuffer { id },
            Command::DeleteTexture { id } => CommandView::DeleteTexture { id },
            Command::DeleteVertexArray { id } => CommandView::DeleteVertexArray { id },
            Command::DeleteBuffer { id } => CommandView::DeleteBuffer { id },
            Command::DeleteProgram { id } => CommandView::DeleteProgram { id },
        }
    }
}

/// Adds one command at the end of a list.
pub(crate) fn push_command(out: &mut Vec<Command>, command: Command)
    ensures
        final(out).deep_view() == old(out).deep_view().push(command.deep_view()),
{
    out.push(command);
}

/// Moves all commands of `more` to the end of a list, in their order.
pub(crate) fn append_commands(out: &mut Vec<Command>, more: Vec<Command>)
    ensures
        final(out).deep_view() == old(out).deep_view() + more.deep_view(),
{
    let mut more = more;
    out.append(&mut more);
}

} // verus!
