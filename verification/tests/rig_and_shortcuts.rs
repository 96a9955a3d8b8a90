use animus::editor::interact::{next_stage_mode, plan_shortcuts, ShortcutKeys};
use animus::editor::rig::{
    bone_allowed, bone_name, delete_bone, delete_joint, first_joint_pinned, joint_name, BoneEnds,
    RigIds,
};
use animus::editor::state::{EditMode, Selection, Tool};
use animus::ids::{BoneId, JointId, LayerId, PuppetId};

fn rig(joints: &[u64], bones: &[(u64, u64, u64)]) -> RigIds {
    RigIds {
        joints: joints.iter().map(|j| JointId(*j)).collect(),
        bones: bones
            .iter()
            .map(|(id, a, b)| BoneEnds { id: BoneId(*id), a: JointId(*a), b: JointId(*b) })
            .collect(),
    }
}

#[test]
fn the_first_joint_is_pinned_and_later_ones_are_free() {
    assert!(first_joint_pinned(&rig(&[], &[])), "the first joint anchors the rig");
    assert!(!first_joint_pinned(&rig(&[500], &[])));
    assert_eq!(joint_name(0), "joint 1");
    assert_eq!(joint_name(1), "joint 2");
    assert_eq!(bone_name(9), "bone 10");
}

#[test]
fn a_duplicate_bone_is_refused_in_both_directions() {
    let r = rig(&[1, 2, 3], &[(10, 1, 2)]);
    assert!(!bone_allowed(&r, JointId(1), JointId(2)));
    assert!(!bone_allowed(&r, JointId(2), JointId(1)));
    assert!(!bone_allowed(&r, JointId(3), JointId(3)), "and self-loops");
    assert!(bone_allowed(&r, JointId(2), JointId(3)));
    assert!(!bone_allowed(&r, JointId(2), JointId(99)), "a missing joint is no end");
}

#[test]
fn deleting_a_joint_cascades_into_its_bones() {
    let r = rig(&[1, 2, 3], &[(10, 1, 2), (11, 2, 3), (12, 3, 1)]);
    let after = delete_joint(&r, JointId(2)).unwrap();
    assert_eq!(after.joints, vec![JointId(1), JointId(3)]);
    assert_eq!(
        after.bones,
        vec![BoneEnds { id: BoneId(12), a: JointId(3), b: JointId(1) }],
        "every bone naming the joint must go with it"
    );
    assert!(delete_joint(&r, JointId(7)).is_none());
}

#[test]
fn deleting_a_bone_keeps_its_joints_and_deleting_a_joint_takes_its_bones() {
    let r = rig(&[1, 2], &[(10, 1, 2)]);
    let after = delete_bone(&r, BoneId(10)).unwrap();
    assert!(after.bones.is_empty(), "the bone is gone");
    assert_eq!(after.joints, vec![JointId(1), JointId(2)], "its joints stayed");
    let after = delete_joint(&r, JointId(1)).unwrap();
    assert!(after.bones.is_empty(), "a bone cannot outlive a joint it names");
    assert!(delete_bone(&r, BoneId(99)).is_none());
}

fn keys() -> ShortcutKeys {
    ShortcutKeys {
        r: false,
        v: false,
        j: false,
        b: false,
        delete: false,
        tab: false,
        z: false,
        ctrl: false,
        shift: false,
    }
}

#[test]
fn authoring_shortcuts_arm_only_in_rig() {
    let j = ShortcutKeys { j: true, ..keys() };
    assert_eq!(plan_shortcuts(j, EditMode::Rig, Tool::Select, Selection::Empty, false).tool, Tool::Joint);
    assert_eq!(plan_shortcuts(j, EditMode::Live, Tool::Select, Selection::Empty, false).tool, Tool::Select);
    let b = ShortcutKeys { b: true, ..keys() };
    assert_eq!(plan_shortcuts(b, EditMode::Rig, Tool::Joint, Selection::Empty, false).tool, Tool::Bone);
    // Typing a J into a text field arms nothing.
    assert_eq!(plan_shortcuts(j, EditMode::Rig, Tool::Select, Selection::Empty, true).tool, Tool::Select);
}

#[test]
fn tab_cycles_the_stages_and_arms_their_tool() {
    let tab = ShortcutKeys { tab: true, ..keys() };
    let p = plan_shortcuts(tab, EditMode::Rig, Tool::Joint, Selection::Empty, false);
    assert_eq!((p.mode, p.tool), (EditMode::Edit, Tool::Select));
    let p = plan_shortcuts(tab, EditMode::Live, Tool::Select, Selection::Empty, false);
    assert_eq!((p.mode, p.tool), (EditMode::Rig, Tool::Joint));
    let mut m = EditMode::Edit;
    for _ in 0..3 {
        m = next_stage_mode(m);
    }
    assert_eq!(m, EditMode::Edit);
}

#[test]
fn delete_acts_on_what_is_selected() {
    let del = ShortcutKeys { delete: true, ..keys() };
    let joint = Selection::Joint(PuppetId(1), JointId(2));
    let p = plan_shortcuts(del, EditMode::Rig, Tool::Select, joint, false);
    assert_eq!(p.delete_joint, Some((PuppetId(1), JointId(2))));
    let p = plan_shortcuts(del, EditMode::Live, Tool::Select, joint, false);
    assert_eq!(p.delete_joint, None, "the rig is not edited on stage");
    let p = plan_shortcuts(del, EditMode::Edit, Tool::Select, Selection::Layer(LayerId(4)), false);
    assert!(p.clear_step, "in Edit the grid is the work");
    assert_eq!(p.delete_layer, Some(LayerId(4)));
    let bone = Selection::Bone(PuppetId(1), BoneId(3));
    assert_eq!(plan_shortcuts(del, EditMode::Rig, Tool::Select, bone, false).delete_bone, Some((PuppetId(1), BoneId(3))));
}

#[test]
fn ctrl_z_undoes_and_ctrl_shift_z_redoes() {
    let undo = ShortcutKeys { ctrl: true, z: true, ..keys() };
    let redo = ShortcutKeys { ctrl: true, z: true, shift: true, ..keys() };
    let p = plan_shortcuts(undo, EditMode::Rig, Tool::Select, Selection::Empty, false);
    assert!(p.undo && !p.redo);
    let p = plan_shortcuts(redo, EditMode::Rig, Tool::Select, Selection::Empty, false);
    assert!(p.redo && !p.undo);
    let r = ShortcutKeys { r: true, ..keys() };
    assert!(plan_shortcuts(r, EditMode::Live, Tool::Select, Selection::Empty, false).reset_pose);
}
