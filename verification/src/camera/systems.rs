use vstd::prelude::*;
use crate::camera::state::CamControl;
use crate::camera::state::CamState;

verus! {

/// Navigation is active in free mode, and in any mode while the pan button
/// is held.
pub open spec fn spec_is_navigating(mode: CamState, pan_held: bool) -> bool {
    mode == CamState::Free || pan_held
}

pub fn is_navigating(mode: CamState, pan_held: bool) -> (r: bool)
    ensures
        r == spec_is_navigating(mode, pan_held),
{
    mode == CamState::Free || pan_held
}

/// One unit of per-frame work that the host carries out on the camera's
/// numeric state and transform.
#[derive(Clone, Copy, Debug, PartialEq, Eq, Structural)]
pub enum FrameStep {
    /// Scale the movement speed by the scroll wheel.
    SpeedScroll,
    /// Blend the smoothed mouse delta toward this frame's raw delta.
    SmoothMouseInput,
    /// Move the look targets by the smoothed mouse delta.
    UpdateLookTargets,
    /// Derive the target velocity from the held keys and the orientation
    /// as it stands before this frame's rotation.
    TargetVelocity,
    /// Blend the current velocity toward the target velocity.
    UpdateVelocity,
    /// Advance the position by the current velocity.
    Integrate,
    /// Clamp the position into the navigable volume.
    ClampTranslation,
    /// Decelerate, coast along the residual velocity and clamp.
    FrictionAndCoast,
    /// Blend the smoothed mouse delta toward zero.
    DecayMouseInput,
    /// Turn the orientation toward the look targets.
    SmoothRotation,
    /// Compare the orientation with the look targets and report the
    /// outcome to [`settle`].
    MeasureSettle,
}

/// The time step that a unit of work integrates over.
#[derive(Clone, Copy, Debug, PartialEq, Eq, Structural)]
pub enum StepClock {
    /// The step does not depend on elapsed time.
    Untimed,
    /// The frame's elapsed time, capped to the largest integration step.
    Capped,
    /// The frame's elapsed time as measured.
    Real,
}

impl FrameStep {
    /// Translation is integrated over the capped time step; smoothing of
    /// the mouse input and of the rotation runs on the measured one.
    pub open spec fn spec_clock(self) -> StepClock {
        match self {
            FrameStep::UpdateVelocity | FrameStep::Integrate | FrameStep::FrictionAndCoast =>
                StepClock::Capped,
            FrameStep::SmoothMouseInput | FrameStep::DecayMouseInput | FrameStep::SmoothRotation =>
                StepClock::Real,
            FrameStep::SpeedScroll
            | FrameStep::UpdateLookTargets
            | FrameStep::TargetVelocity
            | FrameStep::ClampTranslation
            | FrameStep::MeasureSettle => StepClock::Untimed,
        }
    }

    pub fn clock(self) -> (r: StepClock)
        ensures
            r == self.spec_clock(),
    {
        match self {
            FrameStep::UpdateVelocity => StepClock::Capped,
            FrameStep::Integrate => StepClock::Capped,
            FrameStep::FrictionAndCoast => StepClock::Capped,
            FrameStep::SmoothMouseInput => StepClock::Real,
            FrameStep::DecayMouseInput => StepClock::Real,
            FrameStep::SmoothRotation => StepClock::Real,
            FrameStep::SpeedScroll => StepClock::Untimed,
            FrameStep::UpdateLookTargets => StepClock::Untimed,
            FrameStep::TargetVelocity => StepClock::Untimed,
            FrameStep::ClampTranslation => StepClock::Untimed,
            FrameStep::MeasureSettle => StepClock::Untimed,
        }
    }

    /// The step may change the camera's position.
    pub open spec fn spec_moves_position(self) -> bool {
        self == FrameStep::Integrate || self == FrameStep::FrictionAndCoast
    }
}

/// The work of the translation half of a frame, in order.
pub open spec fn spec_translation_steps(navigating: bool) -> Seq<FrameStep> {
    if navigating {
        seq![
            FrameStep::SpeedScroll,
            FrameStep::SmoothMouseInput,
            FrameStep::UpdateLookTargets,
            FrameStep::TargetVelocity,
            FrameStep::UpdateVelocity,
            FrameStep::Integrate,
            FrameStep::ClampTranslation,
        ]
    } else {
        seq![FrameStep::FrictionAndCoast, FrameStep::DecayMouseInput]
    }
}

/// The work of the rotation half of a frame, in order.
pub open spec fn spec_rotation_steps(rotating: bool) -> Seq<FrameStep> {
    if rotating {
        seq![FrameStep::SmoothRotation, FrameStep::MeasureSettle]
    } else {
        Seq::empty()
    }
}

/// The `rotating` flag as it stands once the translation half of a frame
/// is done: navigation always re-arms it.
pub open spec fn spec_armed(rotating: bool, navigating: bool) -> bool {
    rotating || navigating
}

/// Everything a frame does, in order, for a rig in mode `mode` with the
/// given `rotating` flag, while the pan button is held or not.
pub open spec fn spec_frame_steps(mode: CamState, rotating: bool, pan_held: bool) -> Seq<
    FrameStep,
> {
    let navigating = spec_is_navigating(mode, pan_held);
    spec_translation_steps(navigating) + spec_rotation_steps(spec_armed(rotating, navigating))
}

/// The `rotating` flag after the orientation was compared with the look
/// targets: it drops once both yaw and pitch are within tolerance.
pub open spec fn spec_settled(rotating: bool, yaw_settled: bool, pitch_settled: bool) -> bool {
    rotating && !(yaw_settled && pitch_settled)
}

/// Opens a frame: decides whether navigation is active, re-arms the
/// `rotating` flag if it is, and returns the frame's work in the order in
/// which the host has to carry it out.
///
/// Where the returned steps end in [`FrameStep::MeasureSettle`], the host
/// closes the frame by calling [`settle`] with what it measured.
pub fn cam_movement<P>(ctl: &mut CamControl<P>, pan_held: bool) -> (steps: Vec<FrameStep>)
    ensures
        steps@ == spec_frame_steps(old(ctl).mode, old(ctl).rotating, pan_held),
        final(ctl).rotating == spec_armed(
            old(ctl).rotating,
            spec_is_navigating(old(ctl).mode, pan_held),
        ),
        final(ctl).mode == old(ctl).mode,
        final(ctl).last_cursor_pos == old(ctl).last_cursor_pos,
{
    let mut steps: Vec<FrameStep> = Vec::new();
    if is_navigating(ctl.mode, pan_held) {
        steps.push(FrameStep::SpeedScroll);
        steps.push(FrameStep::SmoothMouseInput);
        steps.push(FrameStep::UpdateLookTargets);
        ctl.rotating = true;
        steps.push(FrameStep::TargetVelocity);
        steps.push(FrameStep::UpdateVelocity);
        steps.push(FrameStep::Integrate);
        steps.push(FrameStep::ClampTranslation);
    } else {
        steps.push(FrameStep::FrictionAndCoast);
        steps.push(FrameStep::DecayMouseInput);
    }
    if ctl.rotating {
        steps.push(FrameStep::SmoothRotation);
        steps.push(FrameStep::MeasureSettle);
    }
    steps
}

/// Closes the rotation half of a frame: clears `rotating` once both the
/// yaw error and the pitch error were measured within tolerance.
pub fn settle<P>(ctl: &mut CamControl<P>, yaw_settled: bool, pitch_settled: bool)
    ensures
        final(ctl).rotating == spec_settled(old(ctl).rotating, yaw_settled, pitch_settled),
        final(ctl).mode == old(ctl).mode,
        final(ctl).last_cursor_pos == old(ctl).last_cursor_pos,
{
    if yaw_settled && pitch_settled {
        ctl.rotating = false;
    }
}

/// How the host confines the cursor.
#[derive(Clone, Copy, Debug, PartialEq, Eq, Structural)]
pub enum CursorGrab {
    /// The cursor is locked in place.
    Locked,
    /// The cursor is kept inside the window.
    Confined,
}

/// What the host has to do to the cursor after a mode change.
#[derive(Clone, Copy, Debug, PartialEq)]
pub struct CursorCommand<P> {
    /// Whether the cursor is shown.
    pub visible: bool,
    /// How the cursor is confined.
    pub grab: CursorGrab,
    /// Where to put the cursor first, if anywhere.
    pub move_to: Option<P>,
}

/// The rig after a toggle taken while the cursor is at `cursor` (`None`
/// when it is outside the window).
///
/// Entering free mode records the cursor's position, replacing whatever
/// was recorded before; leaving it keeps the record.
pub open spec fn spec_toggled_control<P>(ctl: CamControl<P>, cursor: Option<P>) -> CamControl<P> {
    match ctl.mode {
        CamState::Fixed => CamControl {
            mode: CamState::Free,
            rotating: ctl.rotating,
            last_cursor_pos: cursor,
        },
        CamState::Free => CamControl {
            mode: CamState::Fixed,
            rotating: ctl.rotating,
            last_cursor_pos: ctl.last_cursor_pos,
        },
    }
}

/// The cursor command that a toggle issues.
///
/// Entering free mode hides and locks the cursor where it is. Leaving it
/// moves the cursor back to the recorded position, if there is one, shows
/// it and confines it to the window.
pub open spec fn spec_toggle_command<P>(ctl: CamControl<P>) -> CursorCommand<P> {
    match ctl.mode {
        CamState::Fixed => CursorCommand {
            visible: false,
            grab: CursorGrab::Locked,
            move_to: None,
        },
        CamState::Free => CursorCommand {
            visible: true,
            grab: CursorGrab::Confined,
            move_to: ctl.last_cursor_pos,
        },
    }
}

/// Handles the mode-toggle key.
///
/// `toggle_pressed` is true only on the frame in which the key went down.
/// On any other frame nothing changes and no command is issued. On the
/// press edge the mode flips, and the returned command says what to do to
/// the cursor; `cursor` is its current position, `None` when it is outside
/// the window.
pub fn mode_toggle<P: Copy>(
    toggle_pressed: bool,
    ctl: &mut CamControl<P>,
    cursor: Option<P>,
) -> (cmd: Option<CursorCommand<P>>)
    ensures
        !toggle_pressed ==> cmd.is_none() && *final(ctl) == *old(ctl),
        toggle_pressed ==> cmd == Some(spec_toggle_command(*old(ctl))) && *final(ctl)
            == spec_toggled_control(*old(ctl), cursor),
{
    if !toggle_pressed {
        return None;
    }
    match ctl.mode {
        CamState::Fixed => {
            ctl.last_cursor_pos = cursor;
            ctl.mode = CamState::Free;
            Some(CursorCommand { visible: false, grab: CursorGrab::Locked, move_to: None })
        },
        CamState::Free => {
            ctl.mode = CamState::Fixed;
            Some(
                CursorCommand {
                    visible: true,
                    grab: CursorGrab::Confined,
                    move_to: ctl.last_cursor_pos,
                },
            )
        },
    }
}

} // verus!
