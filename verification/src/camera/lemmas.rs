use vstd::prelude::*;
use crate::camera::state::CamControl;
use crate::camera::state::CamState;
use crate::camera::systems::spec_armed;
use crate::camera::systems::spec_frame_steps;
use crate::camera::systems::spec_is_navigating;
use crate::camera::systems::spec_rotation_steps;
use crate::camera::systems::spec_settled;
use crate::camera::systems::spec_toggle_command;
use crate::camera::systems::spec_toggled_control;
use crate::camera::systems::spec_translation_steps;
use crate::camera::systems::CursorGrab;
use crate::camera::systems::FrameStep;

verus! {

/// Entering free mode and leaving it again gives the cursor back: after
/// two toggles the rig is in fixed mode as before, and the second toggle
/// shows the cursor, confines it to the window and moves it to where it
/// was at the first toggle. If the cursor was outside the window then, it
/// is not moved at all.
pub proof fn lemma_toggle_round_trip<P>(
    ctl: CamControl<P>,
    cursor_at_entry: Option<P>,
    cursor_at_exit: Option<P>,
)
    requires
        ctl.mode == CamState::Fixed,
    ensures
        ({
            let entered = spec_toggled_control(ctl, cursor_at_entry);
            let left = spec_toggled_control(entered, cursor_at_exit);
            let entry_cmd = spec_toggle_command(ctl);
            let exit_cmd = spec_toggle_command(entered);
            &&& entered.mode == CamState::Free
            &&& entered.last_cursor_pos == cursor_at_entry
            &&& !entry_cmd.visible
            &&& entry_cmd.grab == CursorGrab::Locked
            &&& entry_cmd.move_to.is_none()
            &&& left.mode == CamState::Fixed
            &&& exit_cmd.visible
            &&& exit_cmd.grab == CursorGrab::Confined
            &&& exit_cmd.move_to == cursor_at_entry
            &&& left.rotating == ctl.rotating
        }),
{
}

/// A toggle flips the mode and nothing else can: two toggles in a row
/// restore the mode, from either mode, and neither touches `rotating`.
pub proof fn lemma_toggle_flips_mode<P>(ctl: CamControl<P>, first: Option<P>, second: Option<P>)
    ensures
        spec_toggled_control(ctl, first).mode == ctl.mode.spec_toggled(),
        spec_toggled_control(ctl, first).mode != ctl.mode,
        spec_toggled_control(spec_toggled_control(ctl, first), second).mode == ctl.mode,
        spec_toggled_control(ctl, first).rotating == ctl.rotating,
{
}

/// Whenever a frame integrates the velocity into the position, the very
/// next step clamps the position: no other work ever sees a position that
/// was moved and not yet clamped.
pub proof fn lemma_integrate_then_clamp(mode: CamState, rotating: bool, pan_held: bool, i: int)
    requires
        0 <= i < spec_frame_steps(mode, rotating, pan_held).len(),
        spec_frame_steps(mode, rotating, pan_held)[i] == FrameStep::Integrate,
    ensures
        i + 1 < spec_frame_steps(mode, rotating, pan_held).len(),
        spec_frame_steps(mode, rotating, pan_held)[i + 1] == FrameStep::ClampTranslation,
{
}

/// Every frame moves the position by exactly one step: it integrates the
/// velocity when navigation is active, and coasts when it is not.
pub proof fn lemma_one_translation_per_frame(mode: CamState, rotating: bool, pan_held: bool)
    ensures
        ({
            let steps = spec_frame_steps(mode, rotating, pan_held);
            let navigating = spec_is_navigating(mode, pan_held);
            &&& navigating ==> steps[5] == FrameStep::Integrate
            &&& !navigating ==> steps[0] == FrameStep::FrictionAndCoast
            &&& forall|i: int, j: int|
                0 <= i < steps.len() && 0 <= j < steps.len() && steps[i].spec_moves_position()
                    && steps[j].spec_moves_position() ==> i == j
        }),
{
}

/// While navigation is active the rotation half always runs, whatever the
/// `rotating` flag was, and the target velocity is taken before the
/// orientation is turned.
pub proof fn lemma_navigation_rearms_rotation(mode: CamState, rotating: bool, pan_held: bool)
    requires
        spec_is_navigating(mode, pan_held),
    ensures
        spec_armed(rotating, true),
        ({
            let steps = spec_frame_steps(mode, rotating, pan_held);
            &&& steps.len() == 9
            &&& steps[3] == FrameStep::TargetVelocity
            &&& steps[7] == FrameStep::SmoothRotation
            &&& steps[8] == FrameStep::MeasureSettle
        }),
{
}

/// A settled rig stays settled while navigation is inactive: such a frame
/// only coasts and lets the smoothed mouse delta decay, it does not touch
/// the orientation, and `rotating` remains false.
pub proof fn lemma_settled_rig_rests(mode: CamState, pan_held: bool)
    requires
        !spec_is_navigating(mode, pan_held),
    ensures
        !spec_armed(false, false),
        spec_frame_steps(mode, false, pan_held) =~= seq![
            FrameStep::FrictionAndCoast,
            FrameStep::DecayMouseInput,
        ],
{
}

/// Once a measurement finds both yaw and pitch within tolerance,
/// `rotating` is false; as long as either is out of tolerance a rotating
/// rig keeps rotating; and measuring never starts a rotation.
pub proof fn lemma_settle_outcomes(rotating: bool, yaw_settled: bool, pitch_settled: bool)
    ensures
        yaw_settled && pitch_settled ==> !spec_settled(rotating, yaw_settled, pitch_settled),
        rotating && !(yaw_settled && pitch_settled) ==> spec_settled(
            rotating,
            yaw_settled,
            pitch_settled,
        ),
        !rotating ==> !spec_settled(rotating, yaw_settled, pitch_settled),
{
}

/// The steps of a frame are those of its translation half followed by
/// those of its rotation half, and a frame is never empty.
pub proof fn lemma_frame_shape(mode: CamState, rotating: bool, pan_held: bool)
    ensures
        ({
            let navigating = spec_is_navigating(mode, pan_held);
            let steps = spec_frame_steps(mode, rotating, pan_held);
            let head = spec_translation_steps(navigating);
            let tail = spec_rotation_steps(spec_armed(rotating, navigating));
            &&& steps.len() == head.len() + tail.len()
            &&& steps.len() >= 2
            &&& steps.subrange(0, head.len() as int) =~= head
            &&& steps.subrange(head.len() as int, steps.len() as int) =~= tail
        }),
{
}

} // verus!
