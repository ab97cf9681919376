use vstd::prelude::*;
use crate::ui::interaction::Interaction;

verus! {

/// Appearance of a hotbar button.
#[derive(Clone, Copy, Debug, PartialEq, Eq, Structural)]
pub enum ButtonStyle {
    Pressed,
    Hovered,
    Selected,
    Unselected,
}

/// A button that the pointer engages shows that, selected or not; a
/// button left alone shows whether it is the current selection.
pub open spec fn spec_button_style(interaction: Interaction, is_selected: bool) -> ButtonStyle {
    match interaction {
        Interaction::Pressed => ButtonStyle::Pressed,
        Interaction::Hovered => ButtonStyle::Hovered,
        Interaction::Idle => if is_selected {
            ButtonStyle::Selected
        } else {
            ButtonStyle::Unselected
        },
    }
}

pub fn button_style(interaction: Interaction, is_selected: bool) -> (r: ButtonStyle)
    ensures
        r == spec_button_style(interaction, is_selected),
{
    match interaction {
        Interaction::Pressed => ButtonStyle::Pressed,
        Interaction::Hovered => ButtonStyle::Hovered,
        Interaction::Idle => {
            if is_selected {
                ButtonStyle::Selected
            } else {
                ButtonStyle::Unselected
            }
        },
    }
}

} // verus!
