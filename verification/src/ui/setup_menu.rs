use vstd::prelude::*;

verus! {

/// Buttons of the setup menu.
#[derive(Clone, Copy, Debug, PartialEq, Eq, Structural)]
pub enum SetupButton {
    BoardXMinus,
    BoardXPlus,
    BoardZMinus,
    BoardZPlus,
    Start,
}

} // verus!
