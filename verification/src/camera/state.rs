use vstd::prelude::*;

verus! {

/// Navigation mode of the camera rig.
///
/// In `Fixed` mode the camera only moves while the pan button is held; in
/// `Free` mode navigation input is honoured on every frame.
#[derive(Clone, Copy, Debug, PartialEq, Eq, Structural, Hash)]
pub enum CamState {
    Fixed,
    Free,
}

impl Default for CamState {
    fn default() -> (r: Self)
        ensures
            r == CamState::Fixed,
    {
        CamState::Fixed
    }
}

impl CamState {
    /// The mode that a toggle leads to.
    pub open spec fn spec_toggled(self) -> CamState {
        match self {
            CamState::Fixed => CamState::Free,
            CamState::Free => CamState::Fixed,
        }
    }

    pub fn toggled(self) -> (r: CamState)
        ensures
            r == self.spec_toggled(),
    {
        match self {
            CamState::Fixed => CamState::Free,
            CamState::Free => CamState::Fixed,
        }
    }
}

/// The discrete part of the camera's runtime state.
///
/// `P` is the host's type for a cursor position; the rig stores and hands
/// back such values without looking inside them.
#[derive(Clone, Copy, Debug, PartialEq)]
pub struct CamControl<P> {
    /// Current navigation mode.
    pub mode: CamState,
    /// True while the visible orientation has not yet converged to the
    /// look targets.
    pub rotating: bool,
    /// Cursor position recorded on entering free mode, restored on leaving.
    pub last_cursor_pos: Option<P>,
}

impl<P> CamControl<P> {
    /// A rig at rest: fixed mode, settled, no cursor position recorded.
    pub fn new() -> (r: Self)
        ensures
            r.mode == CamState::Fixed,
            !r.rotating,
            r.last_cursor_pos.is_none(),
    {
        CamControl { mode: CamState::Fixed, rotating: false, last_cursor_pos: None }
    }
}

} // verus!
