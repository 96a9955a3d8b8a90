//! Colours for the things only this tool draws: wireframe, bones, joints.
//!
//! Those are drawing, not state, so they take the ink ramp and leave the
//! signal colours free to mean exactly what they mean everywhere else.

use vstd::prelude::*;
use crate::editor::theme::{is_signal, BRIGHT, DATA_CYAN, DIM, GHOST, LIVE_CORAL, MID};

verus! {

/// Mesh wireframe. Decoration, so the bottom of the ramp.
pub const WIREFRAME: u32 = GHOST;
/// Bones at rest.
pub const BONE: u32 = MID;
/// Joints at rest: red, and its own red — deliberately not [`LIVE_CORAL`],
/// which the Signal Rule keeps for live.
pub const JOINT: u32 = 0xC84545FF;
/// A pinned joint is drawn as a square rather than recoloured.
pub const PINNED: u32 = DIM;
/// Attachment radius fill, over the artwork.
pub const RADIUS_FILL: u32 = 0x14141414;
/// Selection is a white veil, exactly as a selected row is.
pub const SELECTION: u32 = 0x24242424;
/// The ring around the selected joint.
pub const SELECTED_RING: u32 = BRIGHT;
/// The stage edge: furniture.
pub const STAGE_FRAME: u32 = 0x3A4049FF;
/// The title-safe inset.
pub const SAFE_FRAME: u32 = 0x59616CFF;
/// A joint bound to a live channel: cyan, because it *is* I/O.
pub const BOUND: u32 = DATA_CYAN;
/// A joint being driven right now: by a hand, a binding or a clip.
pub const DRIVEN: u32 = LIVE_CORAL;

/// **The Signal Rule, for gizmos.** The rig at rest never borrows a signal
/// colour; the two exceptions mean what they say — a bound joint is I/O and
/// a driven joint is live.
pub proof fn law_gizmos_never_borrow_a_signal()
    ensures
        !is_signal(WIREFRAME),
        !is_signal(BONE),
        !is_signal(JOINT),
        !is_signal(PINNED),
        BOUND == DATA_CYAN,
        DRIVEN == LIVE_CORAL,
{
}

} // verus!
