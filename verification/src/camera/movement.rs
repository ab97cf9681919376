use vstd::prelude::*;

verus! {

/// Which of the movement keys are held this frame.
///
/// Each direction has several bindings; a direction counts as requested
/// when any of its bindings is held.
#[derive(Clone, Copy, Debug, PartialEq, Eq)]
pub struct MoveKeys {
    pub key_w: bool,
    pub arrow_up: bool,
    pub key_s: bool,
    pub arrow_down: bool,
    pub key_a: bool,
    pub arrow_left: bool,
    pub key_d: bool,
    pub arrow_right: bool,
    pub space: bool,
    pub shift_right: bool,
    pub key_e: bool,
    pub shift_left: bool,
    pub control_right: bool,
    pub key_q: bool,
}

/// Signed request along each of the camera's three movement axes: `1`,
/// `0` or `-1`.
///
/// `forward` runs along the camera's forward vector flattened onto the
/// horizontal plane, `right` along its right vector, and `up` along
/// world-up.
#[derive(Clone, Copy, Debug, PartialEq, Eq, Structural)]
pub struct MoveAxes {
    pub forward: i8,
    pub right: i8,
    pub up: i8,
}

/// The request along one axis: opposing requests cancel.
pub open spec fn spec_axis(positive: bool, negative: bool) -> int {
    (if positive { 1int } else { 0int }) - (if negative { 1int } else { 0int })
}

pub fn axis(positive: bool, negative: bool) -> (r: i8)
    ensures
        r == spec_axis(positive, negative),
        -1 <= r <= 1,
{
    let gain: i8 = if positive { 1 } else { 0 };
    let loss: i8 = if negative { 1 } else { 0 };
    gain - loss
}

impl MoveKeys {
    /// No key held.
    pub fn released() -> (r: Self)
        ensures
            !r.spec_forward() && !r.spec_back() && !r.spec_left() && !r.spec_right()
                && !r.spec_up() && !r.spec_down(),
            r.spec_axes() == (MoveAxes { forward: 0, right: 0, up: 0 }),
    {
        MoveKeys {
            key_w: false,
            arrow_up: false,
            key_s: false,
            arrow_down: false,
            key_a: false,
            arrow_left: false,
            key_d: false,
            arrow_right: false,
            space: false,
            shift_right: false,
            key_e: false,
            shift_left: false,
            control_right: false,
            key_q: false,
        }
    }

    pub open spec fn spec_forward(&self) -> bool {
        self.key_w || self.arrow_up
    }

    pub open spec fn spec_back(&self) -> bool {
        self.key_s || self.arrow_down
    }

    pub open spec fn spec_left(&self) -> bool {
        self.key_a || self.arrow_left
    }

    pub open spec fn spec_right(&self) -> bool {
        self.key_d || self.arrow_right
    }

    pub open spec fn spec_up(&self) -> bool {
        self.space || self.shift_right || self.key_e
    }

    pub open spec fn spec_down(&self) -> bool {
        self.shift_left || self.control_right || self.key_q
    }

    /// The axis requests that the held keys add up to.
    pub open spec fn spec_axes(&self) -> MoveAxes {
        MoveAxes {
            forward: spec_axis(self.spec_forward(), self.spec_back()) as i8,
            right: spec_axis(self.spec_right(), self.spec_left()) as i8,
            up: spec_axis(self.spec_up(), self.spec_down()) as i8,
        }
    }

    pub fn axes(&self) -> (r: MoveAxes)
        ensures
            r == self.spec_axes(),
            r.spec_in_range(),
    {
        MoveAxes {
            forward: axis(self.key_w || self.arrow_up, self.key_s || self.arrow_down),
            right: axis(self.key_d || self.arrow_right, self.key_a || self.arrow_left),
            up: axis(
                self.space || self.shift_right || self.key_e,
                self.shift_left || self.control_right || self.key_q,
            ),
        }
    }
}

impl MoveAxes {
    /// Every component is `1`, `0` or `-1`.
    pub open spec fn spec_in_range(&self) -> bool {
        &&& -1 <= self.forward <= 1
        &&& -1 <= self.right <= 1
        &&& -1 <= self.up <= 1
    }

    /// No movement is requested along any axis.
    pub open spec fn spec_is_idle(&self) -> bool {
        self.forward == 0 && self.right == 0 && self.up == 0
    }

    pub fn is_idle(&self) -> (r: bool)
        ensures
            r == self.spec_is_idle(),
    {
        self.forward == 0 && self.right == 0 && self.up == 0
    }
}

/// Holding both bindings of opposite directions requests no movement along
/// that axis, whatever else is held.
pub proof fn lemma_opposing_keys_cancel(keys: MoveKeys)
    ensures
        keys.spec_forward() && keys.spec_back() ==> keys.spec_axes().forward == 0,
        keys.spec_left() && keys.spec_right() ==> keys.spec_axes().right == 0,
        keys.spec_up() && keys.spec_down() ==> keys.spec_axes().up == 0,
{
}

/// The axes are idle exactly when every direction is either not requested
/// or requested together with its opposite.
pub proof fn lemma_idle_iff_balanced(keys: MoveKeys)
    ensures
        keys.spec_axes().spec_is_idle() <==> {
            &&& keys.spec_forward() == keys.spec_back()
            &&& keys.spec_left() == keys.spec_right()
            &&& keys.spec_up() == keys.spec_down()
        },
{
}

} // verus!
