//! One frame of pointer work in the viewport: which tool acts, whether the
//! rig or the artwork takes the gesture, and how a layer drag begins,
//! continues and ends.
//!
//! The float tests (which joint, handle or puppet is under the pointer)
//! are made by the caller and arrive here as plain facts; every decision
//! taken on them is made here.

use vstd::prelude::*;
use crate::editor::drag::{frame_events, frame_events_spec, DragEvent, FramePointer};
use crate::editor::hit::Corner;
use crate::editor::rig::{bone_click, bone_click_spec, BoneClick};
use crate::editor::state::{EditMode, Selection, Tool};
use crate::ids::{JointId, LayerId, PuppetId};

verus! {

/// The puppet gestures act on: the selected one, or for a selected layer
/// its first puppet, or otherwise the document's first puppet.
///
/// `layer_first` is the first puppet on the selected layer, if a layer is
/// selected and has one; `first` is the document's first puppet.
pub fn active_puppet(selection: Selection, layer_first: Option<PuppetId>, first: Option<PuppetId>) -> (r:
    Option<PuppetId>)
    ensures
        r == match selection {
            Selection::Puppet(p) => Some(p),
            Selection::Joint(p, _) => Some(p),
            Selection::Bone(p, _) => Some(p),
            Selection::Layer(_) => if layer_first is Some {
                layer_first
            } else {
                first
            },
            Selection::Empty => first,
        },
{
    match selection {
        Selection::Puppet(p) => Some(p),
        Selection::Joint(p, _) => Some(p),
        Selection::Bone(p, _) => Some(p),
        Selection::Layer(_) => if layer_first.is_some() {
            layer_first
        } else {
            first
        },
        Selection::Empty => first,
    }
}

/// The puppet a selection names, whose box handles can be grabbed.
pub fn selected_puppet(selection: Selection) -> (r: Option<PuppetId>)
    ensures
        r == match selection {
            Selection::Puppet(p) => Some(p),
            Selection::Joint(p, _) => Some(p),
            Selection::Bone(p, _) => Some(p),
            _ => None,
        },
{
    match selection {
        Selection::Puppet(p) => Some(p),
        Selection::Joint(p, _) => Some(p),
        Selection::Bone(p, _) => Some(p),
        _ => None,
    }
}

/// What the caller's float tests found this frame.
#[derive(Debug, Clone, Copy, PartialEq)]
pub struct FrameFacts<P> {
    /// The pointer, in image pixels, for the joint machine.
    pub pointer: FramePointer<P>,
    /// A click happened this frame, whether or not it could be placed.
    pub clicked: bool,
    /// The grab this frame would make is on a joint (as drawn).
    pub grab_hits_joint: bool,
    /// Where the button went down can be placed on the stage.
    pub press_on_stage: bool,
    /// A corner handle of the selected puppet's box under the press, and the
    /// layer that puppet stands on.
    pub handle: Option<(LayerId, Corner)>,
    /// The front-most visible puppet whose artwork is under the press.
    pub artwork: Option<(PuppetId, LayerId)>,
    /// That puppet's artwork has bounds a drag can be measured against.
    pub artwork_has_bounds: bool,
    /// The joint under a click, for the Bone tool.
    pub joint_clicked: Option<JointId>,
}

/// How a layer drag is taken up.
#[derive(Debug, Clone, Copy, PartialEq, Eq)]
pub enum LayerGrab {
    /// By a corner handle: the drag resizes about the opposite corner.
    Handle(LayerId, Corner),
    /// By the artwork: the drag moves the layer.
    Artwork(LayerId),
}

/// What happens to a layer drag in hand this frame.
#[derive(Debug, Clone, Copy, PartialEq, Eq, Structural)]
pub enum LayerStep {
    /// No layer drag is in hand.
    Idle,
    /// Follow the pointer: one transform, merged into the gesture's undo step.
    Follow,
    /// The button is up: seal the gesture's undo step and drop the drag.
    End,
}

/// The frame's plan.
#[derive(Debug, Clone)]
pub struct InteractionPlan<P> {
    /// Events for the joint machine, in order.
    pub drag_events: Vec<DragEvent<P>>,
    /// A layer drag taken up this frame.
    pub layer_start: Option<LayerGrab>,
    /// A puppet selected by clicking its artwork.
    pub select_puppet: Option<PuppetId>,
    /// What the layer drag in hand, if any, does.
    pub layer_step: LayerStep,
    /// Place a joint here (Joint tool).
    pub place_joint: Option<P>,
    /// The Bone tool's answer to a click.
    pub bone: Option<BoneClick>,
}

/// Whether the Select tool's frame is a gesture on the artwork rather than
/// on the rig: only in Rig, and only when no joint was grabbed and none is
/// being dragged. Moving artwork is a build act; in Edit and Live a drag
/// pulls the puppet.
pub open spec fn artwork_gesture<P>(facts: FrameFacts<P>, mode: EditMode, drag_idle: bool) -> bool {
    let events = frame_events_spec(facts.pointer, drag_idle);
    let grabbed_joint = (facts.grab_hits_joint && exists|i: int|
        0 <= i < events.len() && #[trigger] events[i] is Grab) || !drag_idle;
    mode == EditMode::Rig && !grabbed_joint
}

/// The layer drag taken up this frame: a handle of the selected puppet
/// outranks the artwork under it, and artwork without bounds starts none.
pub open spec fn layer_start_spec<P>(
    facts: FrameFacts<P>,
    mode: EditMode,
    drag_idle: bool,
    layer_active: bool,
) -> Option<LayerGrab> {
    if artwork_gesture(facts, mode, drag_idle) && !layer_active && (facts.pointer.dragging
        || facts.clicked) && facts.press_on_stage {
        match facts.handle {
            Some((l, c)) => Some(LayerGrab::Handle(l, c)),
            None => match facts.artwork {
                Some((_, l)) => if facts.artwork_has_bounds {
                    Some(LayerGrab::Artwork(l))
                } else {
                    None
                },
                None => None,
            },
        }
    } else {
        None
    }
}

/// The puppet a press on its artwork selects, when no handle was taken.
pub open spec fn select_spec<P>(facts: FrameFacts<P>, mode: EditMode, drag_idle: bool, layer_active: bool) -> Option<PuppetId> {
    if artwork_gesture(facts, mode, drag_idle) && !layer_active && (facts.pointer.dragging
        || facts.clicked) && facts.press_on_stage && facts.handle is None {
        match facts.artwork {
            Some((p, _)) => Some(p),
            None => None,
        }
    } else {
        None
    }
}

/// What the layer drag in hand does: it follows while the button is held
/// and ends, sealing its undo step, when it is not.
pub open spec fn layer_step_spec<P>(facts: FrameFacts<P>, mode: EditMode, drag_idle: bool, layer_active: bool) -> LayerStep {
    if artwork_gesture(facts, mode, drag_idle) && (layer_active || layer_start_spec(
        facts,
        mode,
        drag_idle,
        layer_active,
    ) is Some) {
        if facts.pointer.dragging {
            LayerStep::Follow
        } else {
            LayerStep::End
        }
    } else {
        LayerStep::Idle
    }
}

/// Whether the frame's plan is what the rules say, field by field. With no
/// puppet to act on nothing happens. Select drives the joint machine and,
/// in Rig, the artwork; Joint and Bone author only in Rig, on a click;
/// Vertex does nothing yet.
pub open spec fn interaction_spec<P>(
    plan: InteractionPlan<P>,
    facts: FrameFacts<P>,
    mode: EditMode,
    tool: Tool,
    puppet: Option<PuppetId>,
    drag_idle: bool,
    layer_active: bool,
    armed: Option<(PuppetId, JointId)>,
) -> bool {
    let select_tool = puppet is Some && tool == Tool::Select;
    &&& plan.drag_events@ == (if select_tool {
        frame_events_spec(facts.pointer, drag_idle)
    } else {
        seq![]
    })
    &&& plan.layer_start == (if select_tool {
        layer_start_spec(facts, mode, drag_idle, layer_active)
    } else {
        None
    })
    &&& plan.select_puppet == (if select_tool {
        select_spec(facts, mode, drag_idle, layer_active)
    } else {
        None
    })
    &&& plan.layer_step == (if select_tool {
        layer_step_spec(facts, mode, drag_idle, layer_active)
    } else {
        LayerStep::Idle
    })
    &&& plan.place_joint == (if puppet is Some && tool == Tool::Joint && mode == EditMode::Rig {
        facts.pointer.clicked
    } else {
        None
    })
    &&& plan.bone == (if puppet is Some && tool == Tool::Bone && mode == EditMode::Rig
        && facts.pointer.clicked is Some {
        Some(bone_click_spec(armed, puppet->0, facts.joint_clicked))
    } else {
        None
    })
}

/// The frame's plan for the puppet `puppet` acts on, the current mode and
/// tool, whether the joint machine was idle and a layer drag was in hand
/// when the frame began, and the joint the Bone tool has armed.
pub fn interaction_plan<P: Copy>(
    facts: FrameFacts<P>,
    mode: EditMode,
    tool: Tool,
    puppet: Option<PuppetId>,
    drag_idle: bool,
    layer_active: bool,
    armed: Option<(PuppetId, JointId)>,
) -> (p: InteractionPlan<P>)
    ensures
        interaction_spec(p, facts, mode, tool, puppet, drag_idle, layer_active, armed),
{
    let mut plan = InteractionPlan {
        drag_events: Vec::new(),
        layer_start: None,
        select_puppet: None,
        layer_step: LayerStep::Idle,
        place_joint: None,
        bone: None,
    };
    let p = match puppet {
        Some(p) => p,
        None => {
            assert(plan.drag_events@ =~= seq![]);
            return plan;
        },
    };
    match tool {
        Tool::Select => {
            let events = frame_events(facts.pointer, drag_idle);
            let mut grab = false;
            let mut i: usize = 0;
            while i < events.len()
                invariant
                    i <= events.len(),
                    grab == exists|k: int| 0 <= k < i && #[trigger] events@[k] is Grab,
                decreases events.len() - i,
            {
                if let DragEvent::Grab(_) = events[i] {
                    grab = true;
                }
                assert(grab == exists|k: int| 0 <= k < i + 1 && #[trigger] events@[k] is Grab) by {
                    if events@[i as int] is Grab {
                        assert(events@[i as int] is Grab);
                    }
                }
                i = i + 1;
            }
            let grabbed_joint = (facts.grab_hits_joint && grab) || !drag_idle;
            let artwork = mode == EditMode::Rig && !grabbed_joint;
            assert(artwork == artwork_gesture(facts, mode, drag_idle));
            let mut active = layer_active;
            if artwork {
                if !layer_active && (facts.pointer.dragging || facts.clicked) && facts.press_on_stage {
                    match facts.handle {
                        Some((l, c)) => {
                            plan.layer_start = Some(LayerGrab::Handle(l, c));
                            active = true;
                        },
                        None => match facts.artwork {
                            Some((hit, l)) => {
                                plan.select_puppet = Some(hit);
                                if facts.artwork_has_bounds {
                                    plan.layer_start = Some(LayerGrab::Artwork(l));
                                    active = true;
                                }
                            },
                            None => {},
                        },
                    }
                }
                if active {
                    plan.layer_step = if facts.pointer.dragging {
                        LayerStep::Follow
                    } else {
                        LayerStep::End
                    };
                }
            }
            plan.drag_events = events;
        },
        Tool::Joint => {
            if mode == EditMode::Rig {
                plan.place_joint = facts.pointer.clicked;
            }
            assert(plan.drag_events@ =~= seq![]);
        },
        Tool::Bone => {
            if mode == EditMode::Rig && facts.pointer.clicked.is_some() {
                plan.bone = Some(bone_click(armed, p, facts.joint_clicked));
            }
            assert(plan.drag_events@ =~= seq![]);
        },
        Tool::Vertex => {
            assert(plan.drag_events@ =~= seq![]);
        },
    }
    plan
}

/// **Moving artwork is a build act.** Outside Rig the Select tool never
/// takes up, moves or selects a layer by its artwork: in Edit and Live a
/// drag pulls the puppet and nothing else.
pub proof fn law_artwork_moves_only_in_rig<P>(
    facts: FrameFacts<P>,
    mode: EditMode,
    drag_idle: bool,
    layer_active: bool,
)
    requires
        mode != EditMode::Rig,
    ensures
        layer_start_spec(facts, mode, drag_idle, layer_active) is None,
        select_spec(facts, mode, drag_idle, layer_active) is None,
        layer_step_spec(facts, mode, drag_idle, layer_active) == LayerStep::Idle,
{
}

/// **The rig outranks the artwork.** A frame whose grab lands on a joint,
/// or that continues a joint drag, never takes up a layer: the hand meant
/// the joint.
pub proof fn law_a_grabbed_joint_outranks_the_artwork<P>(
    facts: FrameFacts<P>,
    mode: EditMode,
    drag_idle: bool,
    layer_active: bool,
)
    requires
        !drag_idle || (facts.grab_hits_joint && exists|i: int|
            0 <= i < frame_events_spec(facts.pointer, drag_idle).len()
                && #[trigger] frame_events_spec(facts.pointer, drag_idle)[i] is Grab),
    ensures
        layer_start_spec(facts, mode, drag_idle, layer_active) is None,
        select_spec(facts, mode, drag_idle, layer_active) is None,
{
}

/// **A handle outranks the artwork under it.** When a corner handle of the
/// selected puppet is under the press and a layer gesture starts, the drag
/// resizes by that handle, whatever artwork lies behind it, and selects
/// nothing new.
pub proof fn law_a_handle_outranks_the_artwork<P>(
    facts: FrameFacts<P>,
    mode: EditMode,
    drag_idle: bool,
    layer_active: bool,
)
    requires
        facts.handle is Some,
        layer_start_spec(facts, mode, drag_idle, layer_active) is Some,
    ensures
        facts.handle matches Some((l, c)) && layer_start_spec(facts, mode, drag_idle, layer_active)
            == Some(LayerGrab::Handle(l, c)),
        select_spec(facts, mode, drag_idle, layer_active) is None,
{
}

/// **A layer drag is one undo step.** A layer drag in hand ends, sealing
/// its step, on the first Rig frame with the button up and no joint
/// gesture; while the button is held it only follows.
pub proof fn law_a_layer_drag_ends_when_the_button_is_up<P>(
    facts: FrameFacts<P>,
    drag_idle: bool,
)
    requires
        artwork_gesture(facts, EditMode::Rig, drag_idle),
    ensures
        layer_step_spec(facts, EditMode::Rig, drag_idle, true) == (if facts.pointer.dragging {
            LayerStep::Follow
        } else {
            LayerStep::End
        }),
{
}

/// **Authoring happens only in Rig, on a click, with the right tool.** The
/// Joint tool places a joint exactly where a Rig click lands; the Bone tool
/// answers a Rig click; in Edit or Live, or with no puppet to act on, neither
/// does anything, and only the Select tool ever drives the joint machine or
/// a layer.
pub proof fn law_authoring_only_in_rig_on_a_click<P>(
    plan: InteractionPlan<P>,
    facts: FrameFacts<P>,
    mode: EditMode,
    tool: Tool,
    puppet: Option<PuppetId>,
    drag_idle: bool,
    layer_active: bool,
    armed: Option<(PuppetId, JointId)>,
)
    requires
        interaction_spec(plan, facts, mode, tool, puppet, drag_idle, layer_active, armed),
    ensures
        (puppet is Some && tool == Tool::Joint && mode == EditMode::Rig) ==> plan.place_joint
            == facts.pointer.clicked,
        (mode != EditMode::Rig || puppet is None || tool != Tool::Joint) ==> plan.place_joint is None,
        (mode != EditMode::Rig || puppet is None || tool != Tool::Bone || facts.pointer.clicked is None)
            ==> plan.bone is None,
        (puppet is Some && tool == Tool::Bone && mode == EditMode::Rig && facts.pointer.clicked is Some)
            ==> plan.bone is Some,
        (tool != Tool::Select || puppet is None) ==> plan.drag_events@.len() == 0
            && plan.layer_start is None && plan.select_puppet is None && plan.layer_step
            == LayerStep::Idle,
{
}

} // verus!
