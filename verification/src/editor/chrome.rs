//! The frame around the work: the three stages that are the three modes.
//!
//! The most consequential distinction in the editor — does dragging a joint
//! change the saved rig, or only pull the live puppet — is the single
//! largest control in the chrome, and the stage the operator is in *is* the
//! mode they are in.

use vstd::prelude::*;
use crate::editor::state::{EditMode, Tool};
use crate::text::decimal;

verus! {

/// What the operator calls the mode they are in.
pub fn mode_label(mode: EditMode) -> (s: &'static str)
    ensures
        s@ == stage_label(stage_of(mode)),
{
    Stage::of(mode).label()
}

/// The sentence beside the switch, shown always and in every mode.
pub fn mode_sentence(mode: EditMode) -> (s: &'static str)
    ensures
        s@ == stage_hint(stage_of(mode)),
{
    Stage::of(mode).hint()
}

/// What the viewport calls itself in each mode.
pub fn stage_badge(mode: EditMode) -> (s: &'static str)
    ensures
        s@ == match mode {
            EditMode::Rig => "WORKBENCH · REST POSE"@,
            EditMode::Edit => "STEP EDITOR"@,
            EditMode::Live => "STAGE · AUDIENCE VIEW"@,
        },
{
    match mode {
        EditMode::Rig => "WORKBENCH · REST POSE",
        EditMode::Edit => "STEP EDITOR",
        EditMode::Live => "STAGE · AUDIENCE VIEW",
    }
}

/// The instruction over the viewport: what a drag will do right now.
pub fn viewport_instruction(mode: EditMode) -> (r: (&'static str, &'static str))
    ensures
        r.0@ == instruction_verb(mode),
        r.1@ == instruction_sentence(mode),
{
    match mode {
        EditMode::Rig => (
            "RIG",
            "Drag a joint to move its rest position. This changes the saved rig.",
        ),
        EditMode::Edit => (
            "POSE",
            "Drag to pose the puppet. The selected step keeps whatever you leave it in.",
        ),
        EditMode::Live => ("PULL", "Drag a joint to move the live puppet. Nothing is written."),
    }
}

/// The verb over the viewport in each mode.
pub open spec fn instruction_verb(mode: EditMode) -> Seq<char> {
    match mode {
        EditMode::Rig => "RIG"@,
        EditMode::Edit => "POSE"@,
        EditMode::Live => "PULL"@,
    }
}

/// The sentence over the viewport in each mode.
pub open spec fn instruction_sentence(mode: EditMode) -> Seq<char> {
    match mode {
        EditMode::Rig => "Drag a joint to move its rest position. This changes the saved rig."@,
        EditMode::Edit => "Drag to pose the puppet. The selected step keeps whatever you leave it in."@,
        EditMode::Live => "Drag a joint to move the live puppet. Nothing is written."@,
    }
}

/// Where in making a show the operator is. The stage and the mode are the
/// same thing: one control, three stages, and the mode *is* the stage.
#[derive(Debug, Clone, Copy, PartialEq, Eq, Structural)]
pub enum Stage {
    Rig,
    Edit,
    Perform,
}

pub const STAGES: [Stage; 3] = [Stage::Rig, Stage::Edit, Stage::Perform];

/// The mode a stage puts the editor in.
pub open spec fn stage_mode(s: Stage) -> EditMode {
    match s {
        Stage::Rig => EditMode::Rig,
        Stage::Edit => EditMode::Edit,
        Stage::Perform => EditMode::Live,
    }
}

/// The stage a mode is.
pub open spec fn stage_of(m: EditMode) -> Stage {
    match m {
        EditMode::Rig => Stage::Rig,
        EditMode::Edit => Stage::Edit,
        EditMode::Live => Stage::Perform,
    }
}

pub open spec fn stage_label(s: Stage) -> Seq<char> {
    match s {
        Stage::Rig => "RIG"@,
        Stage::Edit => "EDIT"@,
        Stage::Perform => "PERFORM"@,
    }
}

pub open spec fn stage_hint(s: Stage) -> Seq<char> {
    match s {
        Stage::Rig => "Place joints and bones. Dragging moves a joint's saved rest position."@,
        Stage::Edit => "Pose the puppet into the selected step. The rig is not touched."@,
        Stage::Perform => "Run the pattern. Grab a limb to take it over; let go to hand it back."@,
    }
}

/// How many joints and bones a mesh puppet's rig has, and how many
/// triangle indices its mesh holds.
#[derive(Debug, Clone, Copy, PartialEq, Eq, Structural)]
pub struct RigCounts {
    pub joints: usize,
    pub bones: usize,
    pub triangle_indices: usize,
}

/// What the stage bar reads of a puppet: its name, and its rig when it is a
/// mesh puppet (a model has none of these counts).
#[derive(Debug, Clone)]
pub struct PuppetOutline {
    pub name: String,
    pub mesh: Option<RigCounts>,
}

/// A mesh puppet with at least two joints and one bone: something to pose.
pub open spec fn is_rigged(p: PuppetOutline) -> bool {
    p.mesh matches Some(c) && c.joints >= 2 && c.bones > 0
}

/// Whether any puppet of the document is rigged.
pub open spec fn any_rigged(puppets: Seq<PuppetOutline>) -> bool {
    exists|i: int| 0 <= i < puppets.len() && is_rigged(#[trigger] puppets[i])
}

impl Stage {
    pub fn mode(self) -> (m: EditMode)
        ensures
            m == stage_mode(self),
    {
        match self {
            Stage::Rig => EditMode::Rig,
            Stage::Edit => EditMode::Edit,
            Stage::Perform => EditMode::Live,
        }
    }

    pub fn of(mode: EditMode) -> (s: Stage)
        ensures
            s == stage_of(mode),
    {
        match mode {
            EditMode::Rig => Stage::Rig,
            EditMode::Edit => Stage::Edit,
            EditMode::Live => Stage::Perform,
        }
    }

    /// The tool this stage arms. Rigging starts with the joint tool, the
    /// first thing an unrigged puppet needs; the other two have nothing to
    /// author, so they hold the hand.
    pub fn tool(self) -> (t: Tool)
        ensures
            t == (if self == Stage::Rig {
                Tool::Joint
            } else {
                Tool::Select
            }),
    {
        match self {
            Stage::Rig => Tool::Joint,
            Stage::Edit | Stage::Perform => Tool::Select,
        }
    }

    pub fn number(self) -> (n: u8)
        ensures
            n == match self {
                Stage::Rig => 1u8,
                Stage::Edit => 2u8,
                Stage::Perform => 3u8,
            },
    {
        match self {
            Stage::Rig => 1,
            Stage::Edit => 2,
            Stage::Perform => 3,
        }
    }

    pub fn label(self) -> (s: &'static str)
        ensures
            s@ == stage_label(self),
    {
        match self {
            Stage::Rig => "RIG",
            Stage::Edit => "EDIT",
            Stage::Perform => "PERFORM",
        }
    }

    /// One line of "what am I doing here", shown on hover and beside the
    /// switch.
    pub fn hint(self) -> (s: &'static str)
        ensures
            s@ == stage_hint(self),
    {
        match self {
            Stage::Rig => "Place joints and bones. Dragging moves a joint's saved rest position.",
            Stage::Edit => "Pose the puppet into the selected step. The rig is not touched.",
            Stage::Perform => "Run the pattern. Grab a limb to take it over; let go to hand it back.",
        }
    }

    /// What the document must contain before this stage is worth entering.
    pub fn requirement(self) -> (s: &'static str)
        ensures
            s@ == stage_requirement(self),
    {
        match self {
            Stage::Rig => "Drop a PNG on the viewport to begin.",
            Stage::Edit => "Rig the puppet first: at least two joints and one bone.",
            Stage::Perform => "Pose at least one step, or arm record and perform into the grid.",
        }
    }

    /// Whether the document satisfies this stage's exit condition. Editing
    /// and performing are never "done": a pattern is never finished and a
    /// show is never over.
    pub fn complete(self, puppets: &Vec<PuppetOutline>) -> (b: bool)
        ensures
            b == (self == Stage::Rig && any_rigged(puppets@)),
    {
        match self {
            Stage::Rig => {
                let mut i: usize = 0;
                while i < puppets.len()
                    invariant
                        self == Stage::Rig,
                        i <= puppets.len(),
                        forall|k: int| 0 <= k < i ==> !is_rigged(#[trigger] puppets@[k]),
                    decreases puppets.len() - i,
                {
                    if let Some(c) = puppets[i].mesh {
                        if c.joints >= 2 && c.bones > 0 {
                            assert(is_rigged(puppets@[i as int]));
                            return true;
                        }
                    }
                    i = i + 1;
                }
                false
            },
            Stage::Edit | Stage::Perform => false,
        }
    }

    /// Whether the operator may go here at all: posing an unrigged puppet
    /// would be posing nothing.
    pub fn available(self, puppets: &Vec<PuppetOutline>) -> (b: bool)
        ensures
            b == (self == Stage::Rig || any_rigged(puppets@)),
    {
        match self {
            Stage::Rig => true,
            Stage::Edit | Stage::Perform => Stage::Rig.complete(puppets),
        }
    }
}

/// The index of the first mesh puppet, if there is one.
pub open spec fn first_mesh(puppets: Seq<PuppetOutline>, i: int) -> bool {
    &&& 0 <= i < puppets.len()
    &&& puppets[i].mesh is Some
    &&& forall|k: int| 0 <= k < i ==> (#[trigger] puppets[k]).mesh is None
}

/// The navigator's readout for the first mesh puppet.
pub open spec fn summary_text(name: Seq<char>, c: RigCounts) -> Seq<char> {
    name + " · "@ + decimal(c.joints as nat) + " joints · "@ + decimal(c.bones as nat)
        + " bones · "@ + decimal((c.triangle_indices / 3) as nat) + " tris"@
}

/// What the document contains, for the navigator's right-hand readout.
pub fn puppet_summary(puppets: &Vec<PuppetOutline>) -> (s: String)
    ensures
        (forall|k: int| 0 <= k < puppets@.len() ==> (#[trigger] puppets@[k]).mesh is None) ==> s@
            == "No puppet yet"@,
        forall|i: int|
            first_mesh(puppets@, i) ==> s@ == summary_text(
                puppets@[i].name@,
                puppets@[i].mesh->0,
            ),
{
    let mut i: usize = 0;
    while i < puppets.len()
        invariant
            i <= puppets.len(),
            forall|k: int| 0 <= k < i ==> (#[trigger] puppets@[k]).mesh is None,
        decreases puppets.len() - i,
    {
        if let Some(c) = puppets[i].mesh {
            let s = String::from_str(puppets[i].name.as_str());
            let s = s.concat(" · ");
            let s = s.concat(crate::text::decimal_text(c.joints as u64).as_str());
            let s = s.concat(" joints · ");
            let s = s.concat(crate::text::decimal_text(c.bones as u64).as_str());
            let s = s.concat(" bones · ");
            let s = s.concat(crate::text::decimal_text((c.triangle_indices / 3) as u64).as_str());
            let s = s.concat(" tris");
            assert forall|j: int| first_mesh(puppets@, j) implies j == i by {
                if j < i {
                } else if j > i {
                    assert(puppets@[i as int].mesh is None);
                }
            }
            return s;
        }
        i = i + 1;
    }
    String::from_str("No puppet yet")
}

/// Stage and mode are the same thing, so the round trip closes in both
/// directions: clicking a stage lights that stage.
pub proof fn law_stage_and_mode_round_trip(s: Stage, m: EditMode)
    ensures
        stage_of(stage_mode(s)) == s,
        stage_mode(stage_of(m)) == m,
{
}

/// The three stages never read the same, in label or in hint, and the
/// viewport says three different things about the same drag.
pub proof fn law_each_stage_reads_differently(a: Stage, b: Stage)
    requires
        a != b,
    ensures
        stage_label(a) != stage_label(b),
        stage_hint(a) != stage_hint(b),
        instruction_verb(stage_mode(a)) != instruction_verb(stage_mode(b)),
{
    reveal_strlit("RIG");
    reveal_strlit("EDIT");
    reveal_strlit("PERFORM");
    reveal_strlit("POSE");
    reveal_strlit("PULL");
    reveal_strlit("Place joints and bones. Dragging moves a joint's saved rest position.");
    reveal_strlit("Pose the puppet into the selected step. The rig is not touched.");
    reveal_strlit("Run the pattern. Grab a limb to take it over; let go to hand it back.");
    assert(stage_label(a).len() != stage_label(b).len() || stage_label(a)[0] != stage_label(b)[0]);
    assert(stage_hint(a)[1] != stage_hint(b)[1] || stage_hint(a)[0] != stage_hint(b)[0]);
    assert(instruction_verb(stage_mode(a))[1] != instruction_verb(stage_mode(b))[1]
        || instruction_verb(stage_mode(a))[0] != instruction_verb(stage_mode(b))[0]);
}

/// What the document must contain before a stage is worth entering.
pub open spec fn stage_requirement(s: Stage) -> Seq<char> {
    match s {
        Stage::Rig => "Drop a PNG on the viewport to begin."@,
        Stage::Edit => "Rig the puppet first: at least two joints and one bone."@,
        Stage::Perform => "Pose at least one step, or arm record and perform into the grid."@,
    }
}

/// The stage tab's hover text. An unavailable stage says what it needs; a
/// finished one, or Perform, says what it is for; an unfinished one says
/// both, on two lines. "Looks unfinished" is not a message.
pub fn stage_tip(stage: Stage, available: bool, complete: bool) -> (tip: String)
    ensures
        tip@ == (if !available {
            stage_requirement(stage)
        } else if complete || stage == Stage::Perform {
            stage_hint(stage)
        } else {
            stage_hint(stage) + "\n"@ + stage_requirement(stage)
        }),
{
    if !available {
        String::from_str(stage.requirement())
    } else if complete || stage == Stage::Perform {
        String::from_str(stage.hint())
    } else {
        String::from_str(stage.hint()).concat("\n").concat(stage.requirement())
    }
}

} // verus!
