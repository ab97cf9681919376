use vstd::prelude::*;

verus! {

/// How the pointer currently relates to a widget.
#[derive(Clone, Copy, Debug, PartialEq, Eq, Structural)]
pub enum Interaction {
    /// The widget is being pressed.
    Pressed,
    /// The pointer rests on the widget.
    Hovered,
    /// The pointer is elsewhere.
    Idle,
}

/// Some widget is pressed or hovered.
pub open spec fn spec_any_engaged(widgets: Seq<Interaction>) -> bool {
    exists|i: int| 0 <= i < widgets.len() && widgets[i] != Interaction::Idle
}

pub fn any_engaged(widgets: &Vec<Interaction>) -> (r: bool)
    ensures
        r == spec_any_engaged(widgets@),
{
    let mut i: usize = 0;
    while i < widgets.len()
        invariant
            i <= widgets@.len(),
            forall|k: int| 0 <= k < i ==> widgets@[k] == Interaction::Idle,
        decreases widgets@.len() - i,
    {
        if widgets[i] != Interaction::Idle {
            return true;
        }
        i += 1;
    }
    false
}

} // verus!
