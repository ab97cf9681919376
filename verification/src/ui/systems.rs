use vstd::prelude::*;
use crate::game::node_type::NodeType;
use crate::game::state::GameState;
use crate::game::types::ToolType;
use crate::ui::hud::ToolButton;
use crate::ui::hud::TopBarButton;
use crate::ui::setup_menu::SetupButton;

verus! {

/// Board size and session phase as the setup menu leaves them.
#[derive(Clone, Copy, Debug, PartialEq, Eq, Structural)]
pub struct SetupOutcome {
    pub board_size_x: usize,
    pub board_size_z: usize,
    /// The phase to enter, if the press asks for one.
    pub next_state: Option<GameState>,
}

/// One tile less along an axis, but never fewer than one.
pub open spec fn spec_shrink(size: usize) -> usize {
    if size <= 2 {
        1
    } else {
        (size - 1) as usize
    }
}

/// The effect of pressing a button of the setup menu on a board of
/// `size_x` by `size_z` tiles.
pub open spec fn spec_setup_press(button: SetupButton, size_x: usize, size_z: usize)
    -> SetupOutcome {
    match button {
        SetupButton::BoardXMinus => SetupOutcome {
            board_size_x: spec_shrink(size_x),
            board_size_z: size_z,
            next_state: None,
        },
        SetupButton::BoardXPlus => SetupOutcome {
            board_size_x: (size_x + 1) as usize,
            board_size_z: size_z,
            next_state: None,
        },
        SetupButton::BoardZMinus => SetupOutcome {
            board_size_x: size_x,
            board_size_z: spec_shrink(size_z),
            next_state: None,
        },
        SetupButton::BoardZPlus => SetupOutcome {
            board_size_x: size_x,
            board_size_z: (size_z + 1) as usize,
            next_state: None,
        },
        SetupButton::Start => SetupOutcome {
            board_size_x: size_x,
            board_size_z: size_z,
            next_state: Some(GameState::Paused),
        },
    }
}

pub fn setup_menu_buttons(button: SetupButton, size_x: usize, size_z: usize) -> (r: SetupOutcome)
    requires
        button == SetupButton::BoardXPlus ==> size_x < usize::MAX,
        button == SetupButton::BoardZPlus ==> size_z < usize::MAX,
    ensures
        r == spec_setup_press(button, size_x, size_z),
{
    match button {
        SetupButton::BoardXMinus => SetupOutcome {
            board_size_x: shrink(size_x),
            board_size_z: size_z,
            next_state: None,
        },
        SetupButton::BoardXPlus => SetupOutcome {
            board_size_x: size_x + 1,
            board_size_z: size_z,
            next_state: None,
        },
        SetupButton::BoardZMinus => SetupOutcome {
            board_size_x: size_x,
            board_size_z: shrink(size_z),
            next_state: None,
        },
        SetupButton::BoardZPlus => SetupOutcome {
            board_size_x: size_x,
            board_size_z: size_z + 1,
            next_state: None,
        },
        SetupButton::Start => SetupOutcome {
            board_size_x: size_x,
            board_size_z: size_z,
            next_state: Some(GameState::Paused),
        },
    }
}

fn shrink(size: usize) -> (r: usize)
    ensures
        r == spec_shrink(size),
{
    let less: usize = size.saturating_sub(1);
    if less < 1 {
        1
    } else {
        less
    }
}

/// The phase that a button of the top bar leads to; saving and quitting
/// lead nowhere.
pub open spec fn spec_top_bar_press(button: TopBarButton) -> Option<GameState> {
    match button {
        TopBarButton::Pause => Some(GameState::Paused),
        TopBarButton::Play => Some(GameState::Playing),
        TopBarButton::Fast => Some(GameState::Fast),
        TopBarButton::Reset => Some(GameState::Setup),
        TopBarButton::Save => None,
        TopBarButton::Quit => None,
    }
}

pub fn top_bar_buttons(button: TopBarButton) -> (r: Option<GameState>)
    ensures
        r == spec_top_bar_press(button),
{
    match button {
        TopBarButton::Pause => Some(GameState::Paused),
        TopBarButton::Play => Some(GameState::Playing),
        TopBarButton::Fast => Some(GameState::Fast),
        TopBarButton::Reset => Some(GameState::Setup),
        TopBarButton::Save => None,
        TopBarButton::Quit => None,
    }
}

/// The tool that a button of the tool hotbar selects; the add button
/// starts with the first placeable node type.
pub open spec fn spec_hotbar_press(button: ToolButton) -> ToolType {
    match button {
        ToolButton::Select => ToolType::Select,
        ToolButton::Add => ToolType::Add(NodeType::Internet),
        ToolButton::Delete => ToolType::Delete,
        ToolButton::Link => ToolType::Link,
        ToolButton::Move => ToolType::Move,
    }
}

pub fn hotbar_buttons(button: ToolButton) -> (r: ToolType)
    ensures
        r == spec_hotbar_press(button),
{
    match button {
        ToolButton::Select => ToolType::Select,
        ToolButton::Add => ToolType::Add(NodeType::Internet),
        ToolButton::Delete => ToolType::Delete,
        ToolButton::Link => ToolType::Link,
        ToolButton::Move => ToolType::Move,
    }
}

/// Shrinking a board axis never takes it below one tile nor makes it
/// larger, and growing it afterwards gives back any size of two or more.
pub proof fn lemma_shrink_bounds(size: usize)
    ensures
        1 <= spec_shrink(size),
        size >= 1 ==> spec_shrink(size) <= size,
        size >= 2 ==> spec_shrink(size) + 1 == size,
{
}

} // verus!
