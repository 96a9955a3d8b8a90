//! Keyboard shortcuts: what a frame's keys ask for.
//!
//! The tooltips advertise these, and a shortcut that is advertised but absent
//! is worse than none. The system that owns the world asks [`plan_shortcuts`]
//! and performs the plan.

use vstd::prelude::*;
use crate::editor::chrome::{stage_of, Stage};
use crate::editor::state::{EditMode, Selection, Tool};
use crate::ids::{BoneId, JointId, LayerId, PuppetId};

verus! {

/// The keys of one frame: which were pressed this frame, and which
/// modifiers are held.
#[derive(Debug, Clone, Copy, PartialEq, Eq, Structural)]
pub struct ShortcutKeys {
    /// R: back to rest.
    pub r: bool,
    /// V: the select tool.
    pub v: bool,
    /// J: the joint tool.
    pub j: bool,
    /// B: the bone tool.
    pub b: bool,
    /// Delete or Backspace.
    pub delete: bool,
    /// Tab: the next stage.
    pub tab: bool,
    /// Z, with Ctrl for undo and Ctrl+Shift for redo.
    pub z: bool,
    pub ctrl: bool,
    pub shift: bool,
}

/// What the keys ask for this frame.
#[derive(Debug, Clone, Copy, PartialEq, Eq)]
pub struct ShortcutPlan {
    /// Put every puppet back on its rest pose and drop every pull.
    pub reset_pose: bool,
    pub tool: Tool,
    pub mode: EditMode,
    /// Empty the step being posed.
    pub clear_step: bool,
    /// Delete this layer, through the same command the panel's trash uses.
    pub delete_layer: Option<LayerId>,
    /// Delete this joint, cascading into its bones.
    pub delete_joint: Option<(PuppetId, JointId)>,
    /// Delete this bone, leaving its joints.
    pub delete_bone: Option<(PuppetId, BoneId)>,
    pub undo: bool,
    pub redo: bool,
}

/// The stage after this one, in the order the work happens.
pub open spec fn next_mode(m: EditMode) -> EditMode {
    match m {
        EditMode::Rig => EditMode::Edit,
        EditMode::Edit => EditMode::Live,
        EditMode::Live => EditMode::Rig,
    }
}

/// The tool a stage arms.
pub open spec fn stage_tool(s: Stage) -> Tool {
    if s == Stage::Rig {
        Tool::Joint
    } else {
        Tool::Select
    }
}

/// The plan for a frame's keys.
pub open spec fn shortcut_spec(
    keys: ShortcutKeys,
    mode: EditMode,
    tool: Tool,
    selection: Selection,
    keyboard_taken: bool,
) -> ShortcutPlan {
    let editing = mode == EditMode::Rig;
    let tool1 = if keys.v {
        Tool::Select
    } else {
        tool
    };
    let tool2 = if editing && keys.j {
        Tool::Joint
    } else {
        tool1
    };
    let tool3 = if editing && keys.b {
        Tool::Bone
    } else {
        tool2
    };
    let new_mode = if keys.tab {
        next_mode(mode)
    } else {
        mode
    };
    if keyboard_taken {
        ShortcutPlan {
            reset_pose: false,
            tool,
            mode,
            clear_step: false,
            delete_layer: None,
            delete_joint: None,
            delete_bone: None,
            undo: false,
            redo: false,
        }
    } else {
        ShortcutPlan {
            reset_pose: keys.r,
            tool: if keys.tab {
                stage_tool(stage_of(new_mode))
            } else {
                tool3
            },
            mode: new_mode,
            clear_step: keys.delete && mode == EditMode::Edit,
            delete_layer: match selection {
                Selection::Layer(l) => if keys.delete {
                    Some(l)
                } else {
                    None
                },
                _ => None,
            },
            delete_joint: match selection {
                Selection::Joint(p, j) => if keys.delete && editing {
                    Some((p, j))
                } else {
                    None
                },
                _ => None,
            },
            delete_bone: match selection {
                Selection::Bone(p, b) => if keys.delete && editing {
                    Some((p, b))
                } else {
                    None
                },
                _ => None,
            },
            undo: keys.ctrl && keys.z && !keys.shift,
            redo: keys.ctrl && keys.z && keys.shift,
        }
    }
}

/// The stage after this one: Tab cycles Rig → Edit → Perform → Rig.
pub fn next_stage_mode(m: EditMode) -> (n: EditMode)
    ensures
        n == next_mode(m),
{
    match m {
        EditMode::Rig => EditMode::Edit,
        EditMode::Edit => EditMode::Live,
        EditMode::Live => EditMode::Rig,
    }
}

/// Decide what this frame's keys do.
///
/// Nothing fires while a text field holds the keyboard: renaming a layer
/// that contains a J must not arm the joint tool. J and B are authoring
/// tools and arm only in Rig. Delete empties the posed step in Edit, deletes
/// a selected layer in any mode, and deletes a selected joint or bone in
/// Rig. Tab moves to the next stage and arms that stage's tool.
pub fn plan_shortcuts(
    keys: ShortcutKeys,
    mode: EditMode,
    tool: Tool,
    selection: Selection,
    keyboard_taken: bool,
) -> (p: ShortcutPlan)
    ensures
        p == shortcut_spec(keys, mode, tool, selection, keyboard_taken),
{
    if keyboard_taken {
        return ShortcutPlan {
            reset_pose: false,
            tool,
            mode,
            clear_step: false,
            delete_layer: None,
            delete_joint: None,
            delete_bone: None,
            undo: false,
            redo: false,
        };
    }
    let editing = mode == EditMode::Rig;
    let mut tool = tool;
    if keys.v {
        tool = Tool::Select;
    }
    if editing && keys.j {
        tool = Tool::Joint;
    }
    if editing && keys.b {
        tool = Tool::Bone;
    }
    let clear_step = keys.delete && mode == EditMode::Edit;
    let delete_layer = match selection {
        Selection::Layer(l) => if keys.delete {
            Some(l)
        } else {
            None
        },
        _ => None,
    };
    let delete_joint = match selection {
        Selection::Joint(p, j) => if keys.delete && editing {
            Some((p, j))
        } else {
            None
        },
        _ => None,
    };
    let delete_bone = match selection {
        Selection::Bone(p, b) => if keys.delete && editing {
            Some((p, b))
        } else {
            None
        },
        _ => None,
    };
    let mut new_mode = mode;
    if keys.tab {
        new_mode = next_stage_mode(mode);
        tool = Stage::of(new_mode).tool();
    }
    ShortcutPlan {
        reset_pose: keys.r,
        tool,
        mode: new_mode,
        clear_step,
        delete_layer,
        delete_joint,
        delete_bone,
        undo: keys.ctrl && keys.z && !keys.shift,
        redo: keys.ctrl && keys.z && keys.shift,
    }
}

/// Three presses of Tab come back to the stage they started from.
pub proof fn law_tab_cycles_the_three_stages(m: EditMode)
    ensures
        next_mode(next_mode(next_mode(m))) == m,
        next_mode(m) != m,
{
}

/// Authoring tools are armed only in Rig: outside it, a frame without Tab
/// leaves the tool as it was, or puts down whatever was in hand for Select.
pub proof fn law_authoring_tools_arm_only_in_rig(
    keys: ShortcutKeys,
    mode: EditMode,
    tool: Tool,
    selection: Selection,
    keyboard_taken: bool,
)
    requires
        mode != EditMode::Rig,
        !keys.tab,
    ensures
        ({
            let t = shortcut_spec(keys, mode, tool, selection, keyboard_taken).tool;
            t == tool || t == Tool::Select
        }),
        shortcut_spec(keys, mode, tool, selection, keyboard_taken).delete_joint is None,
        shortcut_spec(keys, mode, tool, selection, keyboard_taken).delete_bone is None,
{
}

/// Undo and redo are never asked for in the same frame.
pub proof fn law_undo_and_redo_exclude_each_other(
    keys: ShortcutKeys,
    mode: EditMode,
    tool: Tool,
    selection: Selection,
    keyboard_taken: bool,
)
    ensures
        !(shortcut_spec(keys, mode, tool, selection, keyboard_taken).undo && shortcut_spec(
            keys,
            mode,
            tool,
            selection,
            keyboard_taken,
        ).redo),
{
}

/// **What the keys do.** With the keyboard free:
/// - Tab moves to the next stage (Rig → Edit → Perform → Rig) and arms that
///   stage's tool: the joint tool in Rig, the select tool elsewhere;
/// - without Tab, V arms the select tool, and in Rig J arms the joint tool
///   and B the bone tool (B over J over V); outside Rig J and B do nothing,
///   and with none of them the tool stays;
/// - R resets the pose; Delete empties the step in Edit, deletes a selected
///   layer in any mode, and a selected joint or bone only in Rig;
/// - Ctrl+Z undoes and Ctrl+Shift+Z redoes.
/// With the keyboard taken by a text field, nothing happens at all.
pub proof fn law_what_the_keys_do(
    keys: ShortcutKeys,
    mode: EditMode,
    tool: Tool,
    selection: Selection,
    taken: bool,
)
    ensures
        ({
            let p = shortcut_spec(keys, mode, tool, selection, taken);
            let rig = mode == EditMode::Rig;
            &&& taken ==> p.tool == tool && p.mode == mode && !p.reset_pose && !p.clear_step
                && p.delete_layer is None && p.delete_joint is None && p.delete_bone is None
                && !p.undo && !p.redo
            &&& !taken && !keys.tab ==> p.mode == mode
            &&& !taken && keys.tab && mode == EditMode::Rig ==> p.mode == EditMode::Edit
                && p.tool == Tool::Select
            &&& !taken && keys.tab && mode == EditMode::Edit ==> p.mode == EditMode::Live
                && p.tool == Tool::Select
            &&& !taken && keys.tab && mode == EditMode::Live ==> p.mode == EditMode::Rig
                && p.tool == Tool::Joint
            &&& !taken && !keys.tab && rig && keys.b ==> p.tool == Tool::Bone
            &&& !taken && !keys.tab && rig && keys.j && !keys.b ==> p.tool == Tool::Joint
            &&& !taken && !keys.tab && keys.v && !(rig && (keys.j || keys.b)) ==> p.tool
                == Tool::Select
            &&& !taken && !keys.tab && !keys.v && !(rig && (keys.j || keys.b)) ==> p.tool == tool
            &&& !taken ==> p.reset_pose == keys.r
            &&& !taken ==> p.clear_step == (keys.delete && mode == EditMode::Edit)
            &&& !taken ==> p.delete_layer == (match selection {
                Selection::Layer(l) => if keys.delete {
                    Some(l)
                } else {
                    None
                },
                _ => None,
            })
            &&& !taken ==> p.delete_joint == (match selection {
                Selection::Joint(pp, j) => if keys.delete && rig {
                    Some((pp, j))
                } else {
                    None
                },
                _ => None,
            })
            &&& !taken ==> p.delete_bone == (match selection {
                Selection::Bone(pp, b) => if keys.delete && rig {
                    Some((pp, b))
                } else {
                    None
                },
                _ => None,
            })
            &&& !taken ==> p.undo == (keys.ctrl && keys.z && !keys.shift)
            &&& !taken ==> p.redo == (keys.ctrl && keys.z && keys.shift)
        }),
{
}

} // verus!
