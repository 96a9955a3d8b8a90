//! Rigging rules on a skeleton's identities: which bones may be drawn, and
//! what a deletion takes with it.
//!
//! The geometry (where joints rest, how far a bone reaches, which vertices
//! follow it) is the caller's; the rules about which joints and bones exist
//! are here.

use vstd::prelude::*;
use crate::ids::{BoneId, JointId, PuppetId};
use crate::text::decimal;

verus! {

/// A bone, by the joints it connects.
#[derive(Debug, Clone, Copy, PartialEq, Eq, Structural)]
pub struct BoneEnds {
    pub id: BoneId,
    pub a: JointId,
    pub b: JointId,
}

/// A skeleton's identities, in the order the skeleton stores them.
#[derive(Debug, Clone)]
pub struct RigIds {
    pub joints: Vec<JointId>,
    pub bones: Vec<BoneEnds>,
}

/// Whether a bone names `joint` at either end.
pub open spec fn names_joint(bone: BoneEnds, joint: JointId) -> bool {
    bone.a == joint || bone.b == joint
}

/// Whether a bone connects `a` and `b`, in either direction: a spring has no
/// direction, so `a→b` and `b→a` are the same constraint.
pub open spec fn connects(bone: BoneEnds, a: JointId, b: JointId) -> bool {
    (bone.a == a && bone.b == b) || (bone.a == b && bone.b == a)
}

/// The bones that do not name `joint`, in order.
pub open spec fn bones_without_joint(bones: Seq<BoneEnds>, joint: JointId) -> Seq<BoneEnds>
    decreases bones.len(),
{
    if bones.len() == 0 {
        seq![]
    } else {
        let before = bones_without_joint(bones.drop_last(), joint);
        if names_joint(bones.last(), joint) {
            before
        } else {
            before.push(bones.last())
        }
    }
}

/// The joints other than `joint`, in order.
pub open spec fn joints_without(joints: Seq<JointId>, joint: JointId) -> Seq<JointId>
    decreases joints.len(),
{
    if joints.len() == 0 {
        seq![]
    } else {
        let before = joints_without(joints.drop_last(), joint);
        if joints.last() == joint {
            before
        } else {
            before.push(joints.last())
        }
    }
}

/// The bones other than `bone`, in order.
pub open spec fn bones_without(bones: Seq<BoneEnds>, bone: BoneId) -> Seq<BoneEnds>
    decreases bones.len(),
{
    if bones.len() == 0 {
        seq![]
    } else {
        let before = bones_without(bones.drop_last(), bone);
        if bones.last().id == bone {
            before
        } else {
            before.push(bones.last())
        }
    }
}

/// Whether a bone from `a` to `b` may be added: two different joints, both
/// in the skeleton, not already connected in either direction.
pub open spec fn bone_may_join(rig: RigIds, a: JointId, b: JointId) -> bool {
    &&& a != b
    &&& rig.joints@.contains(a)
    &&& rig.joints@.contains(b)
    &&& forall|i: int| 0 <= i < rig.bones@.len() ==> !connects(#[trigger] rig.bones@[i], a, b)
}

fn has_joint(joints: &Vec<JointId>, j: JointId) -> (b: bool)
    ensures
        b == joints@.contains(j),
{
    let mut i: usize = 0;
    while i < joints.len()
        invariant
            i <= joints.len(),
            forall|k: int| 0 <= k < i ==> joints@[k] != j,
        decreases joints.len() - i,
    {
        if joints[i] == j {
            return true;
        }
        i = i + 1;
    }
    false
}

fn has_bone(bones: &Vec<BoneEnds>, id: BoneId) -> (b: bool)
    ensures
        b == exists|i: int| 0 <= i < bones@.len() && (#[trigger] bones@[i]).id == id,
{
    let mut i: usize = 0;
    while i < bones.len()
        invariant
            i <= bones.len(),
            forall|k: int| 0 <= k < i ==> bones@[k].id != id,
        decreases bones.len() - i,
    {
        if bones[i].id == id {
            return true;
        }
        i = i + 1;
    }
    false
}

/// Whether a bone from `a` to `b` may be added. A duplicate in either
/// direction would double the constraint's stiffness silently, and a bone
/// from a joint to itself is no bone.
pub fn bone_allowed(rig: &RigIds, a: JointId, b: JointId) -> (ok: bool)
    ensures
        ok == bone_may_join(*rig, a, b),
{
    if a == b {
        return false;
    }
    if !has_joint(&rig.joints, a) || !has_joint(&rig.joints, b) {
        return false;
    }
    let mut i: usize = 0;
    while i < rig.bones.len()
        invariant
            i <= rig.bones.len(),
            forall|k: int| 0 <= k < i ==> !connects(#[trigger] rig.bones@[k], a, b),
        decreases rig.bones.len() - i,
    {
        let bone = rig.bones[i];
        if (bone.a == a && bone.b == b) || (bone.a == b && bone.b == a) {
            assert(connects(rig.bones@[i as int], a, b));
            return false;
        }
        i = i + 1;
    }
    true
}

/// A new joint is pinned when it is the puppet's first: the first thing a
/// rig needs is an anchor, and a rig whose every joint is free slides off
/// the canvas the moment the solver starts.
pub fn first_joint_pinned(rig: &RigIds) -> (pinned: bool)
    ensures
        pinned == (rig.joints@.len() == 0),
{
    rig.joints.len() == 0
}

/// The name a new joint gets: `joint N`, counting from one.
pub fn joint_name(existing: usize) -> (s: String)
    requires
        existing < usize::MAX,
    ensures
        s@ == "joint "@ + decimal((existing + 1) as nat),
{
    String::from_str("joint ").concat(crate::text::decimal_text((existing + 1) as u64).as_str())
}

/// The name a new bone gets: `bone N`, counting from one.
pub fn bone_name(existing: usize) -> (s: String)
    requires
        existing < usize::MAX,
    ensures
        s@ == "bone "@ + decimal((existing + 1) as nat),
{
    String::from_str("bone ").concat(crate::text::decimal_text((existing + 1) as u64).as_str())
}

/// Delete a joint, cascading into every bone that names it. `None` when the
/// skeleton has no such joint.
pub fn delete_joint(rig: &RigIds, joint: JointId) -> (r: Option<RigIds>)
    ensures
        r is None <==> !rig.joints@.contains(joint),
        r matches Some(n) ==> n.joints@ == joints_without(rig.joints@, joint) && n.bones@
            == bones_without_joint(rig.bones@, joint),
{
    if !has_joint(&rig.joints, joint) {
        return None;
    }
    let mut joints: Vec<JointId> = Vec::new();
    let mut i: usize = 0;
    while i < rig.joints.len()
        invariant
            i <= rig.joints.len(),
            joints@ == joints_without(rig.joints@.subrange(0, i as int), joint),
        decreases rig.joints.len() - i,
    {
        assert(rig.joints@.subrange(0, i + 1).drop_last() == rig.joints@.subrange(0, i as int));
        if rig.joints[i] != joint {
            joints.push(rig.joints[i]);
        }
        i = i + 1;
    }
    assert(rig.joints@.subrange(0, rig.joints.len() as int) == rig.joints@);
    let mut bones: Vec<BoneEnds> = Vec::new();
    let mut k: usize = 0;
    while k < rig.bones.len()
        invariant
            k <= rig.bones.len(),
            bones@ == bones_without_joint(rig.bones@.subrange(0, k as int), joint),
        decreases rig.bones.len() - k,
    {
        assert(rig.bones@.subrange(0, k + 1).drop_last() == rig.bones@.subrange(0, k as int));
        let bone = rig.bones[k];
        if bone.a != joint && bone.b != joint {
            bones.push(bone);
        }
        k = k + 1;
    }
    assert(rig.bones@.subrange(0, rig.bones.len() as int) == rig.bones@);
    Some(RigIds { joints, bones })
}

/// Delete a bone, leaving its joints: they are positions placed by hand,
/// and a spring is the cheap half to redraw. `None` when there is no such
/// bone.
pub fn delete_bone(rig: &RigIds, bone: BoneId) -> (r: Option<RigIds>)
    ensures
        r is None <==> !(exists|i: int| 0 <= i < rig.bones@.len() && (#[trigger] rig.bones@[i]).id
            == bone),
        r matches Some(n) ==> n.joints@ == rig.joints@ && n.bones@ == bones_without(
            rig.bones@,
            bone,
        ),
{
    if !has_bone(&rig.bones, bone) {
        return None;
    }
    let mut bones: Vec<BoneEnds> = Vec::new();
    let mut k: usize = 0;
    while k < rig.bones.len()
        invariant
            k <= rig.bones.len(),
            bones@ == bones_without(rig.bones@.subrange(0, k as int), bone),
        decreases rig.bones.len() - k,
    {
        assert(rig.bones@.subrange(0, k + 1).drop_last() == rig.bones@.subrange(0, k as int));
        if rig.bones[k].id != bone {
            bones.push(rig.bones[k]);
        }
        k = k + 1;
    }
    assert(rig.bones@.subrange(0, rig.bones.len() as int) == rig.bones@);
    Some(RigIds { joints: rig.joints.clone(), bones })
}

/// No bone left by the cascade names the deleted joint.
pub proof fn lemma_cascade_leaves_no_bone_on_joint(bones: Seq<BoneEnds>, joint: JointId)
    ensures
        forall|i: int|
            0 <= i < bones_without_joint(bones, joint).len() ==> !names_joint(
                #[trigger] bones_without_joint(bones, joint)[i],
                joint,
            ),
    decreases bones.len(),
{
    if bones.len() > 0 {
        lemma_cascade_leaves_no_bone_on_joint(bones.drop_last(), joint);
        let before = bones_without_joint(bones.drop_last(), joint);
        if !names_joint(bones.last(), joint) {
            assert forall|i: int| 0 <= i < before.push(bones.last()).len() implies !names_joint(
                #[trigger] before.push(bones.last())[i],
                joint,
            ) by {
                if i < before.len() {
                    assert(before.push(bones.last())[i] == before[i]);
                }
            }
        }
    }
}

/// The deleted joint is gone from the joint list.
pub proof fn lemma_joint_gone(joints: Seq<JointId>, joint: JointId)
    ensures
        !joints_without(joints, joint).contains(joint),
    decreases joints.len(),
{
    if joints.len() > 0 {
        lemma_joint_gone(joints.drop_last(), joint);
        let before = joints_without(joints.drop_last(), joint);
        if joints.last() != joint {
            assert forall|i: int| 0 <= i < before.push(joints.last()).len() implies before.push(
                joints.last(),
            )[i] != joint by {
                if i < before.len() {
                    assert(before.push(joints.last())[i] == before[i]);
                }
            }
        }
    }
}

/// **A bone cannot outlive a joint it names.** After a joint is deleted, it
/// is not in the skeleton and no bone names it.
pub proof fn law_deleting_a_joint_takes_its_bones(rig: RigIds, joint: JointId, after: RigIds)
    requires
        after.joints@ == joints_without(rig.joints@, joint),
        after.bones@ == bones_without_joint(rig.bones@, joint),
    ensures
        !after.joints@.contains(joint),
        forall|i: int| 0 <= i < after.bones@.len() ==> !names_joint(#[trigger] after.bones@[i], joint),
{
    lemma_cascade_leaves_no_bone_on_joint(rig.bones@, joint);
    lemma_joint_gone(rig.joints@, joint);
}

/// Whether a bone is allowed does not depend on which end it is drawn from.
pub proof fn law_bones_are_undirected(rig: RigIds, a: JointId, b: JointId)
    ensures
        bone_may_join(rig, a, b) == bone_may_join(rig, b, a),
{
    if bone_may_join(rig, a, b) {
        assert forall|i: int| 0 <= i < rig.bones@.len() implies !connects(
            #[trigger] rig.bones@[i],
            b,
            a,
        ) by {
            assert(!connects(rig.bones@[i], a, b));
        }
    }
    if bone_may_join(rig, b, a) {
        assert forall|i: int| 0 <= i < rig.bones@.len() implies !connects(
            #[trigger] rig.bones@[i],
            a,
            b,
        ) by {
            assert(!connects(rig.bones@[i], b, a));
        }
    }
}

} // verus!

verus! {

/// What one click of the Bone tool does: which joint is armed afterwards,
/// which joint is selected, and which bone, if any, is to be placed.
#[derive(Debug, Clone, Copy, PartialEq, Eq)]
pub struct BoneClick {
    pub armed: Option<(PuppetId, JointId)>,
    pub select: Option<JointId>,
    pub place: Option<(JointId, JointId)>,
}

/// The Bone tool's answer to a click on `puppet` that hit `hit` (the joint
/// under the pointer, if any) with `armed` armed.
///
/// The first click on a joint arms it. A click on a joint with one armed on
/// the same puppet places the bone between them and leaves the far end
/// armed, so a limb is one click per joint. A click on empty space, or with
/// a joint of another puppet armed, disarms.
pub open spec fn bone_click_spec(armed: Option<(PuppetId, JointId)>, puppet: PuppetId, hit: Option<JointId>) -> BoneClick {
    match (armed, hit) {
        (None, Some(j)) => BoneClick { armed: Some((puppet, j)), select: Some(j), place: None },
        (Some((p, a)), Some(b)) => if p == puppet {
            BoneClick { armed: Some((puppet, b)), select: Some(b), place: Some((a, b)) }
        } else {
            BoneClick { armed: None, select: None, place: None }
        },
        _ => BoneClick { armed: None, select: None, place: None },
    }
}

/// See [`bone_click_spec`].
pub fn bone_click(armed: Option<(PuppetId, JointId)>, puppet: PuppetId, hit: Option<JointId>) -> (r: BoneClick)
    ensures
        r == bone_click_spec(armed, puppet, hit),
{
    match (armed, hit) {
        (None, Some(j)) => BoneClick { armed: Some((puppet, j)), select: Some(j), place: None },
        (Some((p, a)), Some(b)) => if p == puppet {
            BoneClick { armed: Some((puppet, b)), select: Some(b), place: Some((a, b)) }
        } else {
            BoneClick { armed: None, select: None, place: None }
        },
        _ => BoneClick { armed: None, select: None, place: None },
    }
}

/// **A limb is one click per joint.** Clicking joints `a`, `b`, `c` of one
/// puppet in turn, from nothing armed, places the bones `a`–`b` and `b`–`c`
/// and leaves `c` armed for the next.
pub proof fn law_a_chain_is_one_click_per_joint(puppet: PuppetId, a: JointId, b: JointId, c: JointId)
    ensures
        ({
            let first = bone_click_spec(None, puppet, Some(a));
            let second = bone_click_spec(first.armed, puppet, Some(b));
            let third = bone_click_spec(second.armed, puppet, Some(c));
            &&& first.place is None
            &&& second.place == Some((a, b))
            &&& third.place == Some((b, c))
            &&& third.armed == Some((puppet, c))
        }),
{
}

/// **What one Bone click does.** A click on empty space disarms and places
/// nothing. A click on a joint with nothing armed arms and selects it. A
/// click on a joint with a joint of the same puppet armed places the bone
/// from the armed joint to it, selects it and leaves it armed. A joint of
/// another puppet armed is let go.
pub proof fn law_what_a_bone_click_does(
    armed: Option<(PuppetId, JointId)>,
    puppet: PuppetId,
    hit: Option<JointId>,
    owner: PuppetId,
    a: JointId,
    b: JointId,
)
    ensures
        ({
            let r = bone_click_spec(armed, puppet, hit);
            &&& hit is None ==> r.armed is None && r.place is None && r.select is None
            &&& (armed is None && hit == Some(b)) ==> r.armed == Some((puppet, b)) && r.select
                == Some(b) && r.place is None
            &&& (armed == Some((puppet, a)) && hit == Some(b)) ==> r.place == Some((a, b))
                && r.select == Some(b) && r.armed == Some((puppet, b))
            &&& (armed == Some((owner, a)) && owner != puppet) ==> r.armed is None && r.place is None
        }),
{
}

} // verus!
