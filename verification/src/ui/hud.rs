use vstd::prelude::*;

verus! {

/// Buttons of the top bar.
#[derive(Clone, Copy, Debug, PartialEq, Eq, Structural)]
pub enum TopBarButton {
    Pause,
    Play,
    Fast,
    Reset,
    Save,
    Quit,
}

/// Buttons of the tool hotbar.
#[derive(Clone, Copy, Debug, PartialEq, Eq, Structural)]
pub enum ToolButton {
    Select,
    Add,
    Delete,
    Link,
    Move,
}

} // verus!
