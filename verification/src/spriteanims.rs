//! The frames of the sprite sheet of a walking figure.

use vstd::prelude::*;

verus! {

/// Side length of a frame of the sprite sheet, in pixels.
pub const FRAME_SIZE: u32 = 32;

/// The direction in which a figure looks. The sprite sheet holds one frame
/// for each, side by side in this order.
#[derive(Clone, Copy, Debug, PartialEq, Eq, Structural)]
pub enum HumanAnimState {
    FaceDown,
    FaceRight,
    FaceUp,
    FaceLeft,
}

/// A rectangle of pixels on a sprite sheet, both corners included.
#[derive(Clone, Copy, Debug, PartialEq, Eq, Structural)]
pub struct FrameRect {
    pub min_x: u32,
    pub min_y: u32,
    pub max_x: u32,
    pub max_y: u32,
}

impl HumanAnimState {
    /// The place of the frame on the sprite sheet, counted from the left.
    pub open spec fn spec_frame(self) -> int {
        match self {
            HumanAnimState::FaceDown => 0,
            HumanAnimState::FaceRight => 1,
            HumanAnimState::FaceUp => 2,
            HumanAnimState::FaceLeft => 3,
        }
    }

    /// The frame for this direction: a square of the frame size in the top
    /// row of the sheet.
    pub open spec fn spec_rect(self) -> FrameRect {
        FrameRect {
            min_x: (32 * self.spec_frame()) as u32,
            min_y: 0,
            max_x: (32 * self.spec_frame() + 31) as u32,
            max_y: 31,
        }
    }

    /// The frame of the sprite sheet for this direction.
    #[allow(non_snake_case)]
    pub fn getRect(&self) -> (rect: FrameRect)
        ensures
            rect == self.spec_rect(),
    {
        let frame: u32 = match self {
            HumanAnimState::FaceDown => 0,
            HumanAnimState::FaceRight => 1,
            HumanAnimState::FaceUp => 2,
            HumanAnimState::FaceLeft => 3,
        };
        FrameRect {
            min_x: FRAME_SIZE * frame,
            min_y: 0,
            max_x: FRAME_SIZE * frame + (FRAME_SIZE - 1),
            max_y: FRAME_SIZE - 1,
        }
    }
}

} // verus!
