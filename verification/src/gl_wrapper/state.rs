use crate::gl_wrapper::command::Command;
use vstd::prelude::*;

verus! {

/// Whether incoming colours are combined with what a target already holds.
#[derive(Clone, Copy, Debug, PartialEq, Eq, Structural)]
pub enum Blend {
    /// Combine them, weighting the incoming colour by the first factor and the
    /// stored colour by the second; both are the context's numeric codes.
    Enable(u32, u32),
    /// Overwrite what is stored.
    Disable,
}

/// Settings of the graphics context that belong to no single object.
pub struct State {}

impl State {
    /// The command that switches blending as asked.
    pub fn blend(blend: Blend) -> (command: Command)
        ensures
            command == (Command::Blend { blend }),
    {
        Command::Blend { blend }
    }

    /// The command that sets the viewport rectangle.
    pub fn viewport(x: u32, y: u32, width: u32, height: u32) -> (command: Command)
        ensures
            command == (Command::Viewport { x, y, width, height }),
    {
        Command::Viewport { x, y, width, height }
    }
}

} // verus!
