use animus::editor::inspect::{is_white_space, rename_accepted, rotation_note, rotation_target, RotationTarget};
use animus::editor::rig::bone_click;
use animus::editor::state::EditMode;
use animus::ids::{JointId, PuppetId};

#[test]
fn a_rename_is_taken_once_committed_changed_and_not_blank() {
    assert!(rename_accepted(true, "Background", "Sky"));
    assert!(!rename_accepted(false, "Background", "Sky"), "still typing");
    assert!(!rename_accepted(true, "Background", "Background"), "nothing changed");
    assert!(!rename_accepted(true, "Background", ""));
    assert!(!rename_accepted(true, "Background", " \t\u{3000}"));
    assert!(rename_accepted(true, "Background", "  a  "));
}

#[test]
fn the_dial_moves_the_rest_in_rig_and_the_pose_elsewhere() {
    assert_eq!(rotation_target(EditMode::Rig), RotationTarget::RestAngle);
    assert_eq!(rotation_target(EditMode::Edit), RotationTarget::LivePose);
    assert_eq!(rotation_target(EditMode::Live), RotationTarget::LivePose);
    assert_eq!(
        rotation_note(EditMode::Rig),
        "RIG moves the skeleton over the artwork; the drawing does not bend."
    );
    assert_eq!(rotation_note(EditMode::Live), "Poses the limb away from rest, so the drawing bends with it.");
}

#[test]
fn a_limb_is_one_click_per_joint() {
    let p = PuppetId(1);
    let (a, b, c) = (JointId(2), JointId(3), JointId(4));
    let first = bone_click(None, p, Some(a));
    assert_eq!(first.place, None);
    assert_eq!(first.select, Some(a));
    let second = bone_click(first.armed, p, Some(b));
    assert_eq!(second.place, Some((a, b)));
    let third = bone_click(second.armed, p, Some(c));
    assert_eq!(third.place, Some((b, c)));
    assert_eq!(third.armed, Some((p, c)));
}

#[test]
fn empty_space_or_another_puppet_disarms_the_bone_tool() {
    let p = PuppetId(1);
    let armed = Some((p, JointId(2)));
    let miss = bone_click(armed, p, None);
    assert_eq!((miss.armed, miss.select, miss.place), (None, None, None));
    let other = bone_click(Some((PuppetId(9), JointId(2))), p, Some(JointId(3)));
    assert_eq!((other.armed, other.place), (None, None));
    assert_eq!(bone_click(None, p, None).armed, None);
}

#[test]
fn the_whitespace_table_is_std_s() {
    for u in 0u32..0x110000 {
        if let Some(c) = char::from_u32(u) {
            assert_eq!(is_white_space(c), c.is_whitespace(), "U+{u:04X}");
        }
    }
}
