use animus::editor::dock::{LayerEdit, OutputEdits};
use animus::editor::drag::{DragEvent, FramePointer};
use animus::editor::gesture::{
    active_puppet, interaction_plan, selected_puppet, FrameFacts, LayerGrab, LayerStep,
};
use animus::editor::hit::Corner;
use animus::editor::panels::{
    panel_plan, record_click, record_hint, DocEdit, InspectorCommandKind, InspectorRequest, PanelRequests, SequencerOp,
    StepRequest,
};
use animus::editor::state::{EditMode, Selection, Tool};
use animus::ids::{BoneId, JointId, LayerId, PuppetId};

type P = (f32, f32);
const PUP: PuppetId = PuppetId(1);

fn press(dragging: bool, clicked: bool) -> FrameFacts<P> {
    FrameFacts {
        pointer: FramePointer {
            clicked: if clicked { Some((1.0, 1.0)) } else { None },
            dragging,
            grab_at: Some((1.0, 1.0)),
            move_to: Some((2.0, 2.0)),
        },
        clicked,
        grab_hits_joint: false,
        press_on_stage: true,
        handle: None,
        artwork: Some((PuppetId(7), LayerId(3))),
        artwork_has_bounds: true,
        joint_clicked: None,
    }
}

#[test]
fn a_drag_on_the_artwork_moves_its_layer_only_in_rig() {
    let f = press(true, false);
    let p = interaction_plan(f, EditMode::Rig, Tool::Select, Some(PUP), true, false, None);
    assert_eq!(p.layer_start, Some(LayerGrab::Artwork(LayerId(3))));
    assert_eq!(p.select_puppet, Some(PuppetId(7)));
    assert_eq!(p.layer_step, LayerStep::Follow);
    assert_eq!(p.drag_events, vec![DragEvent::Grab((1.0, 1.0))]);
    for mode in [EditMode::Edit, EditMode::Live] {
        let p = interaction_plan(f, mode, Tool::Select, Some(PUP), true, false, None);
        assert_eq!(p.layer_start, None);
        assert_eq!(p.select_puppet, None);
        assert_eq!(p.layer_step, LayerStep::Idle);
    }
}

#[test]
fn a_joint_under_the_grab_outranks_the_artwork() {
    let mut f = press(true, false);
    f.grab_hits_joint = true;
    let p = interaction_plan(f, EditMode::Rig, Tool::Select, Some(PUP), true, false, None);
    assert_eq!(p.layer_start, None);
    assert_eq!(p.layer_step, LayerStep::Idle);
    // A joint drag in progress does too.
    let p = interaction_plan(press(true, false), EditMode::Rig, Tool::Select, Some(PUP), false, true, None);
    assert_eq!(p.layer_step, LayerStep::Idle);
    assert_eq!(p.drag_events, vec![DragEvent::MoveTo((2.0, 2.0))]);
}

#[test]
fn a_handle_of_the_selected_puppet_outranks_the_artwork_under_it() {
    let mut f = press(true, false);
    f.handle = Some((LayerId(4), Corner::TopRight));
    let p = interaction_plan(f, EditMode::Rig, Tool::Select, Some(PUP), true, false, None);
    assert_eq!(p.layer_start, Some(LayerGrab::Handle(LayerId(4), Corner::TopRight)));
    assert_eq!(p.select_puppet, None);
}

#[test]
fn a_layer_drag_follows_then_ends_when_the_button_is_up() {
    let p = interaction_plan(press(true, false), EditMode::Rig, Tool::Select, Some(PUP), true, true, None);
    assert_eq!((p.layer_start, p.layer_step), (None, LayerStep::Follow));
    let mut up = press(false, false);
    up.pointer.grab_at = None;
    let p = interaction_plan(up, EditMode::Rig, Tool::Select, Some(PUP), true, true, None);
    assert_eq!(p.layer_step, LayerStep::End);
    // A click on the artwork takes the layer up and puts it down at once.
    let p = interaction_plan(press(false, true), EditMode::Rig, Tool::Select, Some(PUP), true, false, None);
    assert_eq!(p.layer_start, Some(LayerGrab::Artwork(LayerId(3))));
    assert_eq!(p.layer_step, LayerStep::End);
}

#[test]
fn authoring_tools_act_only_in_rig_and_only_on_a_click() {
    let click = press(false, true);
    let p = interaction_plan(click, EditMode::Rig, Tool::Joint, Some(PUP), true, false, None);
    assert_eq!(p.place_joint, Some((1.0, 1.0)));
    assert!(p.drag_events.is_empty());
    let p = interaction_plan(click, EditMode::Live, Tool::Joint, Some(PUP), true, false, None);
    assert_eq!(p.place_joint, None);
    let mut bone = click;
    bone.joint_clicked = Some(JointId(5));
    let p = interaction_plan(bone, EditMode::Rig, Tool::Bone, Some(PUP), true, false, Some((PUP, JointId(4))));
    assert_eq!(p.bone.unwrap().place, Some((JointId(4), JointId(5))));
    let p = interaction_plan(bone, EditMode::Edit, Tool::Bone, Some(PUP), true, false, None);
    assert_eq!(p.bone, None);
    let p = interaction_plan(click, EditMode::Rig, Tool::Select, None, true, false, None);
    assert!(p.drag_events.is_empty(), "no puppet, no gesture");
}

#[test]
fn the_active_puppet_follows_the_selection() {
    assert_eq!(active_puppet(Selection::Joint(PuppetId(2), JointId(3)), None, Some(PUP)), Some(PuppetId(2)));
    assert_eq!(active_puppet(Selection::Layer(LayerId(1)), Some(PuppetId(5)), Some(PUP)), Some(PuppetId(5)));
    assert_eq!(active_puppet(Selection::Layer(LayerId(1)), None, Some(PUP)), Some(PUP));
    assert_eq!(active_puppet(Selection::Empty, None, None), None);
    assert_eq!(selected_puppet(Selection::Bone(PuppetId(2), BoneId(3))), Some(PuppetId(2)));
    assert_eq!(selected_puppet(Selection::Layer(LayerId(1))), None);
}

fn requests() -> PanelRequests {
    PanelRequests {
        step_actions: Vec::new(),
        wants_reset_pose: false,
        live_rotation: false,
        wants_fit: false,
        output_edits: OutputEdits::default(),
        set_output_vsync: None,
        inspector: Vec::new(),
        layer_move: None,
        layer_edits: Vec::new(),
        wants_undo: false,
        wants_redo: false,
    }
}

#[test]
fn stopping_the_sequencer_rewinds_and_disarms() {
    let mut r = requests();
    r.step_actions = vec![StepRequest::SetRunning(true), StepRequest::Select(2), StepRequest::SetRunning(false)];
    let p = panel_plan(&r, Selection::Empty, [1920, 1080]);
    assert_eq!(
        p.sequencer,
        vec![
            SequencerOp::SetRunning(true),
            SequencerOp::Select(2),
            SequencerOp::SetRunning(false),
            SequencerOp::Rewind,
            SequencerOp::SetArmed(false),
        ]
    );
    assert!(p.doc_edits.is_empty());
}

#[test]
fn a_built_deletion_clears_the_selection_and_one_that_cannot_be_built_is_dropped() {
    let sel = Selection::Joint(PUP, JointId(2));
    let mut r = requests();
    r.inspector = vec![
        InspectorRequest { command: Some(InspectorCommandKind::Parameter), found: false, released: true },
        InspectorRequest { command: Some(InspectorCommandKind::DeleteBone(PUP, BoneId(9))), found: false, released: true },
    ];
    let p = panel_plan(&r, sel, [1, 1]);
    assert_eq!(p.doc_edits, vec![DocEdit::Inspector(InspectorCommandKind::Parameter), DocEdit::SealGesture]);
    assert_eq!(p.selection, sel);
    r.inspector.push(InspectorRequest {
        command: Some(InspectorCommandKind::DeleteJoint(PUP, JointId(2))),
        found: true,
        released: false,
    });
    let p = panel_plan(&r, sel, [1, 1]);
    assert_eq!(p.selection, Selection::Empty);
    assert_eq!(p.doc_edits.last(), Some(&DocEdit::Inspector(InspectorCommandKind::DeleteJoint(PUP, JointId(2)))));
}

#[test]
fn document_edits_go_through_the_stack_in_order_and_preferences_do_not() {
    let mut r = requests();
    r.output_edits = OutputEdits { set_vsync: Some(true), set_fullscreen: Some(false), set_canvas: Some([800, 600]) };
    r.set_output_vsync = Some(false);
    r.layer_move = Some((LayerId(3), 1));
    r.layer_edits = vec![LayerEdit::Delete(LayerId(3)), LayerEdit::Duplicate(LayerId(4))];
    r.wants_undo = true;
    r.wants_reset_pose = true;
    r.live_rotation = true;
    r.wants_fit = true;
    let p = panel_plan(&r, Selection::Layer(LayerId(3)), [1920, 1080]);
    assert_eq!(
        p.doc_edits,
        vec![
            DocEdit::Canvas([800, 600]),
            DocEdit::MoveLayer(LayerId(3), 1),
            DocEdit::Layer(LayerEdit::Delete(LayerId(3))),
            DocEdit::Layer(LayerEdit::Duplicate(LayerId(4))),
            DocEdit::Undo,
        ]
    );
    assert_eq!(p.vsync, Some(false), "the vsync switch has the last word");
    assert_eq!(p.fullscreen, Some(false));
    assert_eq!(p.selection, Selection::Empty);
    assert!(p.reset_pose && p.request_fit);
    assert_eq!(p.rotate_joint, None, "a rotation needs a selected joint");
    let mut r = requests();
    r.live_rotation = true;
    r.output_edits.set_canvas = Some([1920, 1080]);
    let p = panel_plan(&r, Selection::Joint(PUP, JointId(2)), [1920, 1080]);
    assert_eq!(p.rotate_joint, Some((PUP, JointId(2))));
    assert!(p.doc_edits.is_empty(), "an unchanged canvas and a pose are no edits");
}

#[test]
fn recording_is_armed_only_outside_rig() {
    assert_eq!(record_click(EditMode::Rig, false), None);
    assert_eq!(record_click(EditMode::Edit, false), Some(StepRequest::SetArmed(true)));
    assert_eq!(record_click(EditMode::Live, true), Some(StepRequest::SetArmed(false)));
    assert_eq!(record_hint(EditMode::Rig), "Recording belongs to EDIT and PERFORM, not to RIG.");
}
