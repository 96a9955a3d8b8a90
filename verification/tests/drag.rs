use animus::editor::drag::{
    frame_events, step, DragEffect, DragEvent, DragState, FramePointer, MoveJointRest,
};
use animus::editor::state::EditMode;
use animus::ids::{JointId, PuppetId};

const PUPPET: PuppetId = PuppetId(50);
const J: JointId = JointId(51);
/// The radius these gestures were written against, in image pixels.
const TEST_GRAB_RADIUS: f32 = 8.0;

type P = (f32, f32);

/// The fixture's single joint rests and is drawn at (40, 40).
const REST: P = (40.0, 40.0);

/// What the input layer hands the machine for a grab at `at`: the joint in
/// reach, with its rest position.
fn grabbed(at: P) -> Option<(JointId, P)> {
    let d = ((at.0 - REST.0).powi(2) + (at.1 - REST.1).powi(2)).sqrt();
    (d <= TEST_GRAB_RADIUS).then_some((J, REST))
}

/// Drive a whole gesture and collect every effect.
fn drag_gesture(mode: EditMode, path: &[P]) -> Vec<DragEffect<P>> {
    let mut state = DragState::Idle;
    let mut events = vec![DragEvent::Grab(path[0])];
    events.extend(path[1..].iter().map(|p| DragEvent::MoveTo(*p)));
    events.push(DragEvent::Release);
    let mut out = Vec::new();
    for event in events {
        let g = match event {
            DragEvent::Grab(at) => grabbed(at),
            _ => None,
        };
        out.extend(step(&mut state, event, mode, PUPPET, g));
    }
    assert_eq!(state, DragState::Idle);
    out
}

#[test]
fn an_edit_drag_moves_the_rest_position_as_one_undo_step() {
    let path: Vec<P> = (0..30).map(|i| (40.0 + i as f32 * 2.0, 40.0)).collect();
    let effects = drag_gesture(EditMode::Rig, &path);

    let commands: Vec<MoveJointRest<P>> = effects
        .iter()
        .filter_map(|e| match e {
            DragEffect::Command(c) => Some(*c),
            _ => None,
        })
        .collect();
    assert_eq!(commands.len(), 29);
    // Every move of the gesture starts from the grab-time rest, so the whole
    // gesture inverts as one step.
    assert!(commands.iter().all(|c| c.from == REST));
    assert_eq!(commands.last().unwrap().to, (98.0, 40.0));
    assert_eq!(
        effects.iter().filter(|e| **e == DragEffect::EndGesture).count(),
        1,
        "thirty moves, one undo entry"
    );
    assert!(
        !effects
            .iter()
            .any(|e| matches!(e, DragEffect::SetTarget { .. } | DragEffect::ClearTarget { .. })),
        "edit mode never touches the solver"
    );
}

#[test]
fn a_live_drag_leaves_the_document_byte_identical() {
    let path: Vec<P> = (0..30)
        .map(|i| (40.0 + i as f32 * 3.0, 40.0 + i as f32))
        .collect();
    let effects = drag_gesture(EditMode::Live, &path);

    assert!(
        !effects.iter().any(|e| matches!(e, DragEffect::Command(_))),
        "a live drag must not change the document at all"
    );
    assert!(
        !effects.iter().any(|e| *e == DragEffect::EndGesture),
        "and leaves nothing on the undo stack"
    );
    let targets = effects
        .iter()
        .filter(|e| matches!(e, DragEffect::SetTarget { .. } | DragEffect::ClearTarget { .. }))
        .count();
    assert!(targets >= 30, "the solver received the gesture instead");
    assert_eq!(
        *effects.last().unwrap(),
        DragEffect::ClearTarget { puppet: PUPPET, joint: J },
        "and release cleared the target, so the springs take over"
    );
}

#[test]
fn grabbing_empty_space_does_nothing_in_either_mode() {
    for mode in [EditMode::Rig, EditMode::Edit, EditMode::Live] {
        let mut state = DragState::Idle;
        let at = (500.0, 500.0);
        let effects = step(&mut state, DragEvent::Grab(at), mode, PUPPET, grabbed(at));
        assert_eq!(effects, vec![DragEffect::Nothing]);
        assert_eq!(state, DragState::Idle, "no drag begins on empty space");
    }
}

#[test]
fn grabbing_a_joint_selects_it() {
    let mut state = DragState::Idle;
    let at = (41.0, 40.0);
    let effects = step(&mut state, DragEvent::Grab(at), EditMode::Edit, PUPPET, grabbed(at));
    assert!(effects.contains(&DragEffect::Select { puppet: PUPPET, joint: J }));
}

#[test]
fn the_mode_at_grab_time_governs_the_whole_gesture() {
    let mut state = DragState::Idle;
    let at = (40.0, 40.0);
    step(&mut state, DragEvent::Grab(at), EditMode::Live, PUPPET, grabbed(at));

    let effects = step(
        &mut state,
        DragEvent::MoveTo((60.0, 40.0)),
        EditMode::Edit,
        PUPPET,
        None,
    );
    assert!(
        matches!(effects[0], DragEffect::SetTarget { .. }),
        "the gesture keeps its grab-time meaning, got {effects:?}"
    );
}

#[test]
fn a_lost_release_cannot_wedge_the_machine() {
    let mut state = DragState::Idle;
    let at = (40.0, 40.0);
    step(&mut state, DragEvent::Grab(at), EditMode::Edit, PUPPET, grabbed(at));
    assert!(matches!(state, DragState::Dragging { .. }));

    let effects = step(&mut state, DragEvent::Grab(at), EditMode::Edit, PUPPET, grabbed(at));
    assert_eq!(state, DragState::Idle, "the machine resets");
    assert_eq!(effects, vec![DragEffect::Nothing]);
}

#[test]
fn a_rig_grab_only_selects_and_an_edit_release_keeps_the_pose() {
    let mut state = DragState::Idle;
    let effects = step(&mut state, DragEvent::Grab(REST), EditMode::Rig, PUPPET, grabbed(REST));
    assert_eq!(effects, vec![DragEffect::Select { puppet: PUPPET, joint: J }]);

    let mut state = DragState::Idle;
    step(&mut state, DragEvent::Grab(REST), EditMode::Edit, PUPPET, grabbed(REST));
    let effects = step(&mut state, DragEvent::Release, EditMode::Edit, PUPPET, None);
    assert_eq!(effects, vec![DragEffect::EndGesture], "the pose stays standing");
}

fn pointer(clicked: Option<P>, dragging: bool, grab_at: Option<P>, move_to: Option<P>) -> FramePointer<P> {
    FramePointer { clicked, dragging, grab_at, move_to }
}

#[test]
fn a_click_is_a_grab_and_a_release() {
    let events = frame_events(pointer(Some((1.0, 2.0)), false, None, None), true);
    assert_eq!(events, vec![DragEvent::Grab((1.0, 2.0)), DragEvent::Release]);
}

#[test]
fn a_drag_grabs_where_the_button_went_down_and_moves_where_the_hand_is() {
    let p = pointer(None, true, Some((1.0, 1.0)), Some((5.0, 5.0)));
    // The first frame of a drag only grabs; the machine was idle.
    assert_eq!(frame_events(p, true), vec![DragEvent::Grab((1.0, 1.0))]);
    // After that, only moves.
    assert_eq!(frame_events(p, false), vec![DragEvent::MoveTo((5.0, 5.0))]);
    // A pointer that cannot be placed sends nothing.
    assert!(frame_events(pointer(None, true, None, None), false).is_empty());
}

#[test]
fn the_button_seen_up_releases_an_open_gesture() {
    let up = pointer(None, false, None, None);
    assert_eq!(frame_events(up, false), vec![DragEvent::Release]);
    assert!(frame_events(up, true).is_empty());
    // Fed to the machine, a click on the joint leaves it idle, with the
    // joint selected.
    let mut state = DragState::Idle;
    let mut effects = Vec::new();
    for e in frame_events(pointer(Some(REST), false, None, None), true) {
        let g = match e {
            DragEvent::Grab(at) => grabbed(at),
            _ => None,
        };
        effects.extend(step(&mut state, e, EditMode::Rig, PUPPET, g));
    }
    assert_eq!(state, DragState::Idle);
    assert!(effects.contains(&DragEffect::Select { puppet: PUPPET, joint: J }));
}
