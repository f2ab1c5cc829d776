use crate::gl_wrapper::command::{append_commands, push_command, Command, CommandView};
use crate::gl_wrapper::state::Blend;
use vstd::prelude::*;

verus! {

/// The status with which the context calls a framebuffer complete.
pub const FRAMEBUFFER_COMPLETE: u32 = 0x8CD5;

/// The context's numeric code of the format of the colour attachment:
/// floating point of extended range, eleven bits each for red and green and
/// ten for blue.
pub const HDR_FORMAT: u32 = 0x8C3A;

/// An offscreen render target: a framebuffer with one floating-point colour
/// attachment of extended range and nothing else.
#[derive(Debug, PartialEq, Eq)]
pub struct Framebuffer {
    fb_id: u32,
    color_buf: u32,
    bound: bool,
    width: u32,
    height: u32,
}

/// What a [`Framebuffer`] holds.
pub struct FramebufferView {
    /// Name of the framebuffer; `0` is the window's own surface.
    pub id: u32,
    /// Name of the texture that is the colour attachment.
    pub color: u32,
    /// Whether the framebuffer is the destination of draw calls right now.
    pub bound: bool,
    /// Width of the colour attachment in pixels.
    pub width: u32,
    /// Height of the colour attachment in pixels.
    pub height: u32,
}

impl View for Framebuffer {
    type V = FramebufferView;

    closed spec fn view(&self) -> FramebufferView {
        FramebufferView {
            id: self.fb_id,
            color: self.color_buf,
            bound: self.bound,
            width: self.width,
            height: self.height,
        }
    }
}

/// The calls that set a fresh framebuffer up: storage and filtering for the
/// texture, the attachment, the check for completeness, and the return to the
/// window's surface.
pub open spec fn setup_commands(id: u32, color: u32, width: u32, height: u32) -> Seq<CommandView> {
    seq![
        CommandView::BindTexture { texture: color },
        CommandView::AllocateImage { internal_format: HDR_FORMAT, width, height },
        CommandView::LinearFiltering,
        CommandView::BindFramebuffer { id },
        CommandView::AttachColorTexture { texture: color },
        CommandView::CheckFramebufferStatus,
        CommandView::BindFramebuffer { id: 0 },
    ]
}

/// The calls that give the colour attachment storage of another size. The
/// texture keeps its name.
pub open spec fn resize_commands(color: u32, width: u32, height: u32) -> Seq<CommandView> {
    seq![
        CommandView::BindTexture { texture: color },
        CommandView::AllocateImage { internal_format: HDR_FORMAT, width, height },
        CommandView::BindTexture { texture: 0 },
    ]
}

/// The calls that clear a target: one clear while it is bound, none while it
/// is not.
pub open spec fn clear_commands(target: FramebufferView) -> Seq<CommandView> {
    if target.bound {
        seq![CommandView::Clear]
    } else {
        Seq::empty()
    }
}

/// The calls of one pass into a target: the target is bound, the calls of the
/// pass follow, and the window's surface is bound again.
pub open spec fn pass_commands(id: u32, body: Seq<CommandView>) -> Seq<CommandView> {
    seq![CommandView::BindFramebuffer { id }] + body + seq![CommandView::BindFramebuffer { id: 0 }]
}

/// Whatever the calls of a pass are, the pass begins by binding its target
/// and ends with the window's surface bound again.
pub proof fn lemma_pass_restores_window(id: u32, body: Seq<CommandView>)
    ensures
        pass_commands(id, body).len() == body.len() + 2,
        pass_commands(id, body).first() == (CommandView::BindFramebuffer { id }),
        pass_commands(id, body).last() == (CommandView::BindFramebuffer { id: 0 }),
        pass_commands(id, body).subrange(1, body.len() as int + 1) == body,
{
}

/// What stands for the window's surface where a target is expected: bound,
/// with no objects of its own.
pub open spec fn default_target() -> FramebufferView {
    FramebufferView { id: 0, color: 0, bound: true, width: 0, height: 0 }
}

impl Framebuffer {
    /// A render target of the given size for the framebuffer `fb_id` and the
    /// texture `color_buf`, both fresh from the context, with the calls that
    /// set it up. The target is not bound afterwards.
    pub fn hdr(fb_id: u32, color_buf: u32, width: u32, height: u32) -> (made: (Self, Vec<Command>))
        ensures
            made.0@ == (FramebufferView { id: fb_id, color: color_buf, bound: false, width, height }),
            made.1.deep_view() == setup_commands(fb_id, color_buf, width, height),
    {
        let mut commands: Vec<Command> = Vec::new();
        push_command(&mut commands, Command::BindTexture { texture: color_buf });
        push_command(&mut commands, Command::AllocateImage { internal_format: HDR_FORMAT, width, height });
        push_command(&mut commands, Command::LinearFiltering);
        push_command(&mut commands, Command::BindFramebuffer { id: fb_id });
        push_command(&mut commands, Command::AttachColorTexture { texture: color_buf });
        push_command(&mut commands, Command::CheckFramebufferStatus);
        push_command(&mut commands, Command::BindFramebuffer { id: 0 });
        (Self { fb_id, color_buf, bound: false, width, height }, commands)
    }

    /// Whether a status reported by the context says that the framebuffer is
    /// complete. A target that is not complete cannot be used.
    pub fn is_complete(status: u32) -> (complete: bool)
        ensures
            complete == (status == FRAMEBUFFER_COMPLETE),
    {
        status == FRAMEBUFFER_COMPLETE
    }

    /// Name of the framebuffer.
    pub fn id(&self) -> (id: u32)
        ensures
            id == self@.id,
    {
        self.fb_id
    }

    /// Name of the texture that is the colour attachment.
    pub fn color_texture(&self) -> (color: u32)
        ensures
            color == self@.color,
    {
        self.color_buf
    }

    /// Whether the framebuffer is the destination of draw calls right now.
    pub fn is_bound(&self) -> (bound: bool)
        ensures
            bound == self@.bound,
    {
        self.bound
    }

    /// Width of the colour attachment in pixels.
    pub fn width(&self) -> (width: u32)
        ensures
            width == self@.width,
    {
        self.width
    }

    /// Height of the colour attachment in pixels.
    pub fn height(&self) -> (height: u32)
        ensures
            height == self@.height,
    {
        self.height
    }

    /// The command that binds the colour attachment for sampling on a texture
    /// unit.
    pub fn bind_as_color_texture(&self, unit: u8) -> (command: Command)
        ensures
            command == (Command::BindTextureAt { unit, texture: self@.color }),
    {
        Command::BindTextureAt { unit, texture: self.color_buf }
    }

    /// Gives the colour attachment another size. The framebuffer and the
    /// texture keep their names; what the texture held is lost.
    pub fn resize(&mut self, width: u32, height: u32) -> (commands: Vec<Command>)
        ensures
            final(self)@ == (FramebufferView { width, height, ..old(self)@ }),
            commands.deep_view() == resize_commands(old(self)@.color, width, height),
    {
        let mut commands: Vec<Command> = Vec::new();
        push_command(&mut commands, Command::BindTexture { texture: self.color_buf });
        push_command(&mut commands, Command::AllocateImage { internal_format: HDR_FORMAT, width, height });
        push_command(&mut commands, Command::BindTexture { texture: 0 });
        self.width = width;
        self.height = height;
        commands
    }

    /// The calls that clear the colour attachment to opaque black. A target
    /// that is not bound is left alone.
    pub fn clear(&self) -> (commands: Vec<Command>)
        ensures
            commands.deep_view() == clear_commands(self@),
    {
        let mut commands: Vec<Command> = Vec::new();
        if self.bound {
            push_command(&mut commands, Command::Clear);
        }
        commands
    }

    /// The command that switches blending as asked.
    pub fn blend(&self, blend: Blend) -> (command: Command)
        ensures
            command == (Command::Blend { blend }),
    {
        Command::Blend { blend }
    }

    /// The calls of one pass into this target. The target is bound, `draw` is
    /// asked for the calls of the pass and sees the target as bound, and the
    /// window's surface is bound again, whatever `draw` came up with.
    pub fn draw_with<F: Fn(&Self) -> Vec<Command>>(&mut self, draw: F) -> (commands: Vec<Command>)
        requires
            forall|target: Self|
                target@ == (FramebufferView { bound: true, ..old(self)@ })
                    ==> #[trigger] draw.requires((&target,)),
        ensures
            final(self)@ == (FramebufferView { bound: false, ..old(self)@ }),
            exists|target: Self, body: Vec<Command>|
                {
                    &&& target@ == (FramebufferView { bound: true, ..old(self)@ })
                    &&& draw.ensures((&target,), body)
                    &&& commands.deep_view() == pass_commands(old(self)@.id, body.deep_view())
                },
    {
        let mut commands: Vec<Command> = Vec::new();
        push_command(&mut commands, Command::BindFramebuffer { id: self.fb_id });
        self.bound = true;
        let body = draw(self);
        self.bound = false;
        append_commands(&mut commands, body);
        push_command(&mut commands, Self::bind_default());
        commands
    }

    /// The calls of one pass onto the window's surface. `draw` is asked for
    /// the calls of the pass and sees a bound target that has no objects of
    /// its own.
    pub fn draw_with_default<F: Fn(&Self) -> Vec<Command>>(draw: F) -> (commands: Vec<Command>)
        requires
            forall|target: Self|
                target@ == default_target() ==> #[trigger] draw.requires((&target,)),
        ensures
            exists|target: Self, body: Vec<Command>|
                {
                    &&& target@ == default_target()
                    &&& draw.ensures((&target,), body)
                    &&& commands.deep_view() == seq![CommandView::BindFramebuffer { id: 0 }]
                        + body.deep_view()
                },
    {
        let mut commands: Vec<Command> = Vec::new();
        push_command(&mut commands, Self::bind_default());
        let dummy_fb = Self { bound: true, color_buf: 0, fb_id: 0, width: 0, height: 0 };
        let body = draw(&dummy_fb);
        append_commands(&mut commands, body);
        commands
    }

    /// Gives the target up: the calls that delete its framebuffer and its
    /// texture.
    pub fn release(self) -> (commands: Vec<Command>)
        ensures
            commands.deep_view() == seq![
                CommandView::DeleteFramebuffer { id: self@.id },
                CommandView::DeleteTexture { id: self@.color },
            ],
    {
        let mut commands: Vec<Command> = Vec::new();
        push_command(&mut commands, Command::DeleteFramebuffer { id: self.fb_id });
        push_command(&mut commands, Command::DeleteTexture { id: self.color_buf });
        commands
    }

    /// The command that makes the window's surface the destination of draw
    /// calls.
    pub fn bind_default() -> (command: Command)
        ensures
            command == (Command::BindFramebuffer { id: 0 }),
    {
        Command::BindFramebuffer { id: 0 }
    }
}

} // verus!
