//! What crossing a mode boundary does.
//!
//! - **Rig** builds the skeleton. Entering it puts the puppet on the pose the
//!   document holds, so what is on screen is the rig as saved.
//! - **Edit** poses one step at a time. Entering it — or selecting another
//!   step — puts the puppet into that step's pose.
//! - **Perform** is the show, and entering it disturbs nothing.
//!
//! The system that runs each frame asks [`settle_plan`] what to do and does
//! exactly that.

use vstd::prelude::*;
use crate::editor::state::EditMode;

verus! {

/// What a frame must do to settle the puppet. Every flag off means "nothing".
#[derive(Debug, Clone, Copy, PartialEq, Eq, Structural)]
pub struct SettlePlan {
    /// Forget every live rotation: the dial belongs to the pose, not to the
    /// session.
    pub clear_rotations: bool,
    /// Stop the sequencer.
    pub stop_sequencer: bool,
    /// Disarm recording.
    pub disarm: bool,
    /// Drop every solver target.
    pub clear_targets: bool,
    /// Let go of the joint a hand is holding.
    pub release_held: bool,
    /// End any drag in progress.
    pub end_drag: bool,
    /// Put every puppet back on its rest pose.
    pub reset_to_rest: bool,
    /// Show the selected step's pose, as targets.
    pub show_step_pose: bool,
}

/// A plan that changes nothing.
pub open spec fn quiet(p: SettlePlan) -> bool {
    !p.clear_rotations && !p.stop_sequencer && !p.disarm && !p.clear_targets && !p.release_held
        && !p.end_drag && !p.reset_to_rest && !p.show_step_pose
}

/// The plan for a frame in `mode` with step `selected` chosen, after a frame
/// in `previous` (none on the very first frame).
pub open spec fn settle_spec(
    previous: Option<(EditMode, usize)>,
    mode: EditMode,
    selected: usize,
    step_has_pose: bool,
) -> SettlePlan {
    let none = SettlePlan {
        clear_rotations: false,
        stop_sequencer: false,
        disarm: false,
        clear_targets: false,
        release_held: false,
        end_drag: false,
        reset_to_rest: false,
        show_step_pose: false,
    };
    match previous {
        None => none,
        Some(prev) => if prev == (mode, selected) {
            none
        } else {
            match mode {
                EditMode::Rig => SettlePlan {
                    clear_rotations: true,
                    stop_sequencer: true,
                    disarm: true,
                    clear_targets: true,
                    release_held: true,
                    end_drag: true,
                    reset_to_rest: true,
                    show_step_pose: false,
                },
                EditMode::Edit => SettlePlan {
                    clear_rotations: true,
                    disarm: true,
                    clear_targets: step_has_pose || prev.0 != EditMode::Edit,
                    show_step_pose: step_has_pose,
                    reset_to_rest: !step_has_pose && prev.0 != EditMode::Edit,
                    ..none
                },
                EditMode::Live => SettlePlan { clear_rotations: true, ..none },
            }
        },
    }
}

/// Decide how to settle the puppet this frame, and remember the frame.
///
/// The first frame records and does nothing: settling on startup would stop
/// a pattern a saved session had every right to still be running. In Edit,
/// a step with no pose starts from rest when Edit is being entered, and is
/// left alone when only the step changed.
pub fn settle_plan(
    last: &mut Option<(EditMode, usize)>,
    mode: EditMode,
    selected: usize,
    step_has_pose: bool,
) -> (p: SettlePlan)
    ensures
        *final(last) == Some((mode, selected)),
        p == settle_spec(*old(last), mode, selected, step_has_pose),
{
    let previous = *last;
    *last = Some((mode, selected));
    let none = SettlePlan {
        clear_rotations: false,
        stop_sequencer: false,
        disarm: false,
        clear_targets: false,
        release_held: false,
        end_drag: false,
        reset_to_rest: false,
        show_step_pose: false,
    };
    let prev = match previous {
        None => return none,
        Some(prev) => prev,
    };
    if prev.0 == mode && prev.1 == selected {
        return none;
    }
    match mode {
        EditMode::Rig => SettlePlan {
            clear_rotations: true,
            stop_sequencer: true,
            disarm: true,
            clear_targets: true,
            release_held: true,
            end_drag: true,
            reset_to_rest: true,
            show_step_pose: false,
        },
        EditMode::Edit => {
            let entering = prev.0 != EditMode::Edit;
            SettlePlan {
                clear_rotations: true,
                disarm: true,
                clear_targets: step_has_pose || entering,
                show_step_pose: step_has_pose,
                reset_to_rest: !step_has_pose && entering,
                ..none
            }
        },
        EditMode::Live => SettlePlan { clear_rotations: true, ..none },
    }
}

/// Whether the rest pose is held this frame: for as long as Rig is the mode,
/// the drawing has to agree with the skeleton.
pub fn holds_rest(mode: EditMode) -> (b: bool)
    ensures
        b == (mode == EditMode::Rig),
{
    match mode {
        EditMode::Rig => true,
        _ => false,
    }
}

/// Nothing is settled on the first frame, or on a frame where neither the
/// mode nor the step changed.
pub proof fn law_no_change_settles_nothing(
    previous: Option<(EditMode, usize)>,
    mode: EditMode,
    selected: usize,
    step_has_pose: bool,
)
    requires
        previous is None || previous == Some((mode, selected)),
    ensures
        quiet(settle_spec(previous, mode, selected, step_has_pose)),
{
}

/// Entering Perform disturbs nothing the performance is holding: no target,
/// no held joint, no running pattern.
pub proof fn law_perform_disturbs_nothing(
    previous: Option<(EditMode, usize)>,
    selected: usize,
    step_has_pose: bool,
)
    ensures
        ({
            let p = settle_spec(previous, EditMode::Live, selected, step_has_pose);
            !p.clear_targets && !p.release_held && !p.stop_sequencer && !p.reset_to_rest
        }),
{
}

/// Entering Rig lets go of everything the performance was holding and puts
/// the rig as saved on screen.
pub proof fn law_rig_lets_go(prev: (EditMode, usize), selected: usize, step_has_pose: bool)
    requires
        prev != (EditMode::Rig, selected),
    ensures
        ({
            let p = settle_spec(Some(prev), EditMode::Rig, selected, step_has_pose);
            p.clear_targets && p.release_held && p.stop_sequencer && p.end_drag && p.reset_to_rest
        }),
{
}

} // verus!
verus! {

/// **What a changed frame settles, mode by mode.** When the mode or the
/// selected step differs from the last frame:
/// - entering or staying in Rig resets everything: rotations, sequencer,
///   recording, targets, the held joint and any drag, and the puppet goes
///   back to rest;
/// - in Edit, a step with a pose is shown from its pose (targets cleared
///   and replaced by the pose); a step with no pose starts from rest when
///   Edit is being entered from another mode, and is left where it is when
///   only the step changed within Edit; rotations and recording are
///   dropped either way, and the sequencer and the held joint are left;
/// - in Perform only the dialled rotations are forgotten.
pub proof fn law_what_a_change_settles(
    prev: (EditMode, usize),
    mode: EditMode,
    selected: usize,
    pose: bool,
)
    requires
        prev != (mode, selected),
    ensures
        ({
            let p = settle_spec(Some(prev), mode, selected, pose);
            &&& mode == EditMode::Rig ==> p.clear_rotations && p.stop_sequencer && p.disarm
                && p.clear_targets && p.release_held && p.end_drag && p.reset_to_rest
                && !p.show_step_pose
            &&& mode == EditMode::Edit ==> p.clear_rotations && p.disarm && !p.stop_sequencer
                && !p.release_held && !p.end_drag
            &&& mode == EditMode::Edit && pose ==> p.show_step_pose && p.clear_targets
                && !p.reset_to_rest
            &&& mode == EditMode::Edit && !pose && prev.0 != EditMode::Edit ==> p.clear_targets
                && p.reset_to_rest && !p.show_step_pose
            &&& mode == EditMode::Edit && !pose && prev.0 == EditMode::Edit ==> !p.clear_targets
                && !p.reset_to_rest && !p.show_step_pose
            &&& mode == EditMode::Live ==> p.clear_rotations && !p.stop_sequencer && !p.disarm
                && !p.clear_targets && !p.release_held && !p.end_drag && !p.reset_to_rest
                && !p.show_step_pose
        }),
{
}

} // verus!
