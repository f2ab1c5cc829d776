use vstd::prelude::*;

verus! {

/// What the window reports between frames.
#[derive(Debug, Clone, Copy, PartialEq, Eq)]
pub struct WindowState {
    /// Width and height of the drawable area in pixels.
    pub size: (u32, u32),
    /// Cursor position in pixels, from the top left corner.
    pub cursor: (u32, u32),
    pub mouse_left_button_pressed: bool,
    pub ui_focused: bool,
    /// Whether the frame rate is held at its target.
    pub fps_capped: bool,
    /// Number of the frame that is drawn next.
    pub frame_num: u64,
}

impl WindowState {
    /// The state of a fresh window of the given size: cursor in the corner,
    /// nothing pressed, frame rate capped, no frame drawn.
    pub fn with_size(width: u32, height: u32) -> (state: Self)
        ensures
            state == (WindowState {
                size: (width, height),
                cursor: (0u32, 0u32),
                mouse_left_button_pressed: false,
                ui_focused: false,
                fps_capped: true,
                frame_num: 0,
            }),
    {
        Self {
            size: (width, height),
            cursor: (0, 0),
            fps_capped: true,
            mouse_left_button_pressed: false,
            ui_focused: false,
            frame_num: 0,
        }
    }
}

impl Default for WindowState {
    fn default() -> (state: Self)
        ensures
            state == (WindowState {
                size: (1280u32, 720u32),
                cursor: (0u32, 0u32),
                mouse_left_button_pressed: false,
                ui_focused: false,
                fps_capped: true,
                frame_num: 0,
            }),
    {
        Self::with_size(1280, 720)
    }
}

} // verus!
