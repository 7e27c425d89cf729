//! The buttons of the heads-up display and what they do to the player's
//! tool.

use vstd::prelude::*;
use crate::player::PlayerTool;

verus! {

/// What a button of the heads-up display stands for.
#[derive(Clone, Copy, Debug, PartialEq, Eq, Structural)]
pub enum HUDButtonAction {
    Tiller,
    Unit1,
    Unit2,
    Unit3,
    Unit4,
    Music,
    SoundEffects,
}

/// The tool in hand after the button `action` was pressed while `tool` was
/// in hand: the tiller button gives the tiller, a unit button the planter,
/// and the sound buttons leave the tool as it is.
pub open spec fn spec_tool_after_button(action: HUDButtonAction, tool: PlayerTool) -> PlayerTool {
    match action {
        HUDButtonAction::Tiller => PlayerTool::Tiller,
        HUDButtonAction::Unit1 => PlayerTool::Planter,
        HUDButtonAction::Unit2 => PlayerTool::Planter,
        HUDButtonAction::Unit3 => PlayerTool::Planter,
        HUDButtonAction::Unit4 => PlayerTool::Planter,
        _ => tool,
    }
}

/// The player's tool after one look at a button of the heads-up display.
/// Only a pressed button changes the tool.
pub fn hud_update(pressed: bool, action: HUDButtonAction, tool: PlayerTool) -> (next: PlayerTool)
    ensures
        next == if pressed {
            spec_tool_after_button(action, tool)
        } else {
            tool
        },
{
    if !pressed {
        return tool;
    }
    match action {
        HUDButtonAction::Tiller => PlayerTool::Tiller,
        HUDButtonAction::Unit1 => PlayerTool::Planter,
        HUDButtonAction::Unit2 => PlayerTool::Planter,
        HUDButtonAction::Unit3 => PlayerTool::Planter,
        HUDButtonAction::Unit4 => PlayerTool::Planter,
        _ => tool,
    }
}

} // verus!
