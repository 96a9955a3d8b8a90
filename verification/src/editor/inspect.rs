//! The inspector's rules: when a rename is taken, and what the rotation dial
//! moves in each mode.

use vstd::prelude::*;
use crate::editor::state::EditMode;

verus! {

/// Whether a character has Unicode's `White_Space` property, what
/// `char::is_whitespace` tests: tab through carriage return, space, next
/// line, no-break space, ogham space mark, en quad through hair space, line
/// and paragraph separators, narrow no-break space, medium mathematical space
/// and ideographic space.
pub open spec fn white_space(c: char) -> bool {
    let u = c as u32;
    ||| 0x09 <= u <= 0x0D
    ||| u == 0x20
    ||| u == 0x85
    ||| u == 0xA0
    ||| u == 0x1680
    ||| 0x2000 <= u <= 0x200A
    ||| u == 0x2028
    ||| u == 0x2029
    ||| u == 0x202F
    ||| u == 0x205F
    ||| u == 0x3000
}

/// See [`white_space`].
pub fn is_white_space(c: char) -> (r: bool)
    ensures
        r == white_space(c),
{
    let u = c as u32;
    (0x09 <= u && u <= 0x0D) || u == 0x20 || u == 0x85 || u == 0xA0 || u == 0x1680 || (0x2000 <= u
        && u <= 0x200A) || u == 0x2028 || u == 0x2029 || u == 0x202F || u == 0x205F || u == 0x3000
}

/// Whether a text is all whitespace (so `trim()` leaves nothing of it).
pub open spec fn blank(s: Seq<char>) -> bool {
    forall|i: int| 0 <= i < s.len() ==> white_space(#[trigger] s[i])
}

/// Whether a layer name typed into the inspector is taken: only once the
/// field lets go of the keyboard (so a rename is one undo step), only when
/// it differs from the name it replaces, and never a blank one.
pub fn rename_accepted(committed: bool, current: &str, typed: &str) -> (ok: bool)
    ensures
        ok == (committed && typed@ != current@ && !blank(typed@)),
{
    if !committed || crate::text::text_eq(typed, current) {
        return false;
    }
    let n = typed.unicode_len();
    let mut i: usize = 0;
    while i < n
        invariant
            n == typed@.len(),
            i <= n,
            committed,
            typed@ != current@,
            forall|k: int| 0 <= k < i ==> white_space(#[trigger] typed@[k]),
        decreases n - i,
    {
        let c = typed.get_char(i);
        if !is_white_space(c) {
            assert(!white_space(typed@[i as int]));
            return true;
        }
        i = i + 1;
    }
    false
}

/// What the rotation dial moves.
#[derive(Debug, Clone, Copy, PartialEq, Eq, Structural)]
pub enum RotationTarget {
    /// The joint's rest angle: a document edit, undoable.
    RestAngle,
    /// The live pose: session state that never reaches the document.
    LivePose,
}

/// In Rig the dial re-places the skeleton; in Edit and Live it poses the
/// puppet.
pub fn rotation_target(mode: EditMode) -> (t: RotationTarget)
    ensures
        t == (if mode == EditMode::Rig {
            RotationTarget::RestAngle
        } else {
            RotationTarget::LivePose
        }),
{
    match mode {
        EditMode::Rig => RotationTarget::RestAngle,
        _ => RotationTarget::LivePose,
    }
}

/// The sentence under the dial, saying which of the two it does.
pub fn rotation_note(mode: EditMode) -> (s: &'static str)
    ensures
        s@ == (if mode == EditMode::Rig {
            "RIG moves the skeleton over the artwork; the drawing does not bend."@
        } else {
            "Poses the limb away from rest, so the drawing bends with it."@
        }),
{
    match mode {
        EditMode::Rig => "RIG moves the skeleton over the artwork; the drawing does not bend.",
        _ => "Poses the limb away from rest, so the drawing bends with it.",
    }
}

} // verus!
