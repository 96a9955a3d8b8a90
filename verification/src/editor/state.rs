//! Editor state: overlays, tabs, the selection, tools and modes.

use vstd::prelude::*;
use crate::ids::{BoneId, JointId, LayerId, PuppetId};

verus! {

/// What the viewport draws over the artwork.
///
/// **Toggles, not a mode.** Someone rigging a hand wants the mesh and the
/// joints and nothing else; someone framing a shot wants the safe area and
/// none of the rig.
#[derive(Debug, Clone, Copy, PartialEq, Eq, Structural)]
pub struct Overlays {
    pub mesh: bool,
    pub bones: bool,
    pub joints: bool,
    /// The output frame, dashed: what the audience will actually see.
    pub safe: bool,
    /// The camera rectangle, for when the stage is larger than the frame.
    pub camera: bool,
}

/// Overlay `i`, in the order of [`Overlays::ALL`]; any index past the last
/// names the last.
pub open spec fn overlay_slot(o: Overlays, i: int) -> bool {
    if i == 0 {
        o.mesh
    } else if i == 1 {
        o.bones
    } else if i == 2 {
        o.joints
    } else if i == 3 {
        o.safe
    } else {
        o.camera
    }
}

/// The slot an index names: indexes past the last name the last.
pub open spec fn slot_index(i: int) -> int {
    if i < 4 {
        i
    } else {
        4
    }
}

impl Default for Overlays {
    /// The rig on, the framing guides off: the first thing anyone does with
    /// this tool is build a skeleton, and the guides are for later.
    fn default() -> (o: Self)
        ensures
            o == (Overlays { mesh: true, bones: true, joints: true, safe: false, camera: false }),
    {
        Overlays { mesh: true, bones: true, joints: true, safe: false, camera: false }
    }
}

impl Overlays {
    /// Name, tooltip, and whether there is anything behind it yet.
    ///
    /// `CAMERA` is listed and disabled on purpose: there is no framing camera
    /// in the document, so a toggle would draw a rectangle that means nothing.
    pub const ALL: [(&'static str, &'static str, bool); 5] = [
        ("MESH", "Show the triangle mesh over the artwork", true),
        ("BONES", "Show the bones connecting joints", true),
        ("JOINTS", "Show the joints themselves", true),
        ("SAFE", "Show the title-safe inset: what survives a projector's overscan", true),
        ("CAMERA", "A framing camera would go here. The document has no such camera yet.", false),
    ];

    pub fn get(&self, i: usize) -> (b: bool)
        ensures
            b == overlay_slot(*self, i as int),
    {
        match i {
            0 => self.mesh,
            1 => self.bones,
            2 => self.joints,
            3 => self.safe,
            _ => self.camera,
        }
    }

    /// Flip overlay `i` and no other.
    pub fn toggle(&mut self, i: usize)
        ensures
            forall|j: int|
                0 <= j ==> #[trigger] overlay_slot(*final(self), j) == if slot_index(j)
                    == slot_index(i as int) {
                    !overlay_slot(*old(self), j)
                } else {
                    overlay_slot(*old(self), j)
                },
    {
        match i {
            0 => self.mesh = !self.mesh,
            1 => self.bones = !self.bones,
            2 => self.joints = !self.joints,
            3 => self.safe = !self.safe,
            _ => self.camera = !self.camera,
        }
    }
}

/// The left sidebar's tabs: what is in the show, what it is made from, and
/// what acts on it.
#[derive(Debug, Clone, Copy, PartialEq, Eq, Structural, Hash)]
pub enum LeftTab {
    Scene,
    Assets,
    Tools,
}

impl Default for LeftTab {
    fn default() -> (t: Self)
        ensures
            t == LeftTab::Scene,
    {
        LeftTab::Scene
    }
}

impl LeftTab {
    pub const ALL: [LeftTab; 3] = [LeftTab::Scene, LeftTab::Assets, LeftTab::Tools];

    pub fn label(self) -> (s: &'static str)
        ensures
            s@ == match self {
                LeftTab::Scene => "SCENE"@,
                LeftTab::Assets => "ASSETS"@,
                LeftTab::Tools => "TOOLS"@,
            },
    {
        match self {
            LeftTab::Scene => "SCENE",
            LeftTab::Assets => "ASSETS",
            LeftTab::Tools => "TOOLS",
        }
    }
}

/// The right sidebar's tabs: the selected thing, the physics acting on it,
/// what is arriving from outside, and what that is wired to.
#[derive(Debug, Clone, Copy, PartialEq, Eq, Structural, Hash)]
pub enum RightTab {
    Inspect,
    Physics,
    Channels,
    Bind,
}

impl Default for RightTab {
    fn default() -> (t: Self)
        ensures
            t == RightTab::Inspect,
    {
        RightTab::Inspect
    }
}

impl RightTab {
    pub const ALL: [RightTab; 4] = [
        RightTab::Inspect,
        RightTab::Physics,
        RightTab::Channels,
        RightTab::Bind,
    ];

    pub fn label(self) -> (s: &'static str)
        ensures
            s@ == match self {
                RightTab::Inspect => "INSPECT"@,
                RightTab::Physics => "PHYSICS"@,
                RightTab::Channels => "CHANNELS"@,
                RightTab::Bind => "BIND"@,
            },
    {
        match self {
            RightTab::Inspect => "INSPECT",
            RightTab::Physics => "PHYSICS",
            RightTab::Channels => "CHANNELS",
            RightTab::Bind => "BIND",
        }
    }
}

/// What the operator is editing right now.
#[derive(Debug, Clone, Copy, PartialEq, Eq, Structural)]
pub enum Selection {
    /// Nothing is selected.
    Empty,
    Layer(LayerId),
    Puppet(PuppetId),
    Joint(PuppetId, JointId),
    Bone(PuppetId, BoneId),
}

impl Default for Selection {
    fn default() -> (s: Self)
        ensures
            s == Selection::Empty,
    {
        Selection::Empty
    }
}

/// The active tool. Keyboard-first, one letter each.
#[derive(Debug, Clone, Copy, PartialEq, Eq, Structural)]
pub enum Tool {
    Select,
    Joint,
    Bone,
    Vertex,
}

impl Default for Tool {
    fn default() -> (t: Self)
        ensures
            t == Tool::Select,
    {
        Tool::Select
    }
}

impl Tool {
    pub const ALL: [Tool; 4] = [Tool::Select, Tool::Joint, Tool::Bone, Tool::Vertex];

    pub fn label(self) -> (s: &'static str)
        ensures
            s@ == match self {
                Tool::Select => "Select"@,
                Tool::Joint => "Joint"@,
                Tool::Bone => "Bone"@,
                Tool::Vertex => "Vertex"@,
            },
    {
        match self {
            Tool::Select => "Select",
            Tool::Joint => "Joint",
            Tool::Bone => "Bone",
            Tool::Vertex => "Vertex",
        }
    }

    pub fn key_hint(self) -> (s: &'static str)
        ensures
            s@ == match self {
                Tool::Select => "V"@,
                Tool::Joint => "J"@,
                Tool::Bone => "B"@,
                Tool::Vertex => "P"@,
            },
    {
        match self {
            Tool::Select => "V",
            Tool::Joint => "J",
            Tool::Bone => "B",
            Tool::Vertex => "P",
        }
    }
}

/// Edit mode changes what dragging a joint *means*, the most consequential
/// mode in the application.
#[derive(Debug, Clone, Copy, PartialEq, Eq, Structural)]
pub enum EditMode {
    /// Build the skeleton. Dragging a joint changes its **rest position** and
    /// is undoable.
    Rig,
    /// Pose the puppet into the selected step. Dragging pulls the live
    /// puppet and the result is written into that step; the rig is untouched.
    Edit,
    /// The show. Dragging pulls; nothing is written anywhere.
    Live,
}

impl Default for EditMode {
    fn default() -> (m: Self)
        ensures
            m == EditMode::Rig,
    {
        EditMode::Rig
    }
}

/// Toggling the same overlay twice leaves every overlay as it was.
pub proof fn law_toggle_twice_is_identity(before: Overlays, once: Overlays, twice: Overlays, i: int)
    requires
        0 <= i,
        forall|j: int|
            0 <= j ==> #[trigger] overlay_slot(once, j) == if slot_index(j) == slot_index(i) {
                !overlay_slot(before, j)
            } else {
                overlay_slot(before, j)
            },
        forall|j: int|
            0 <= j ==> #[trigger] overlay_slot(twice, j) == if slot_index(j) == slot_index(i) {
                !overlay_slot(once, j)
            } else {
                overlay_slot(once, j)
            },
    ensures
        twice == before,
{
    assert(overlay_slot(twice, 0) == overlay_slot(before, 0));
    assert(overlay_slot(twice, 1) == overlay_slot(before, 1));
    assert(overlay_slot(twice, 2) == overlay_slot(before, 2));
    assert(overlay_slot(twice, 3) == overlay_slot(before, 3));
    assert(overlay_slot(twice, 4) == overlay_slot(before, 4));
}

} // verus!
