//! The icons the editor draws rather than types.
//!
//! Every glyph borrowed from a font eventually turned up as a hollow box on
//! someone's machine, so the icons that carry meaning are paths; this is the
//! set of them.

use vstd::prelude::*;

verus! {

#[derive(Debug, Clone, Copy, PartialEq, Eq, Structural)]
pub enum Icon {
    /// An open eye: the layer is visible.
    Eye,
    /// A struck-through eye: the layer is hidden.
    EyeOff,
    /// Two offset sheets: duplicate.
    Copy,
    /// A bin with a lid: delete.
    Trash,
    /// A chevron: bring the layer forward in the paint order.
    Up,
    /// A chevron: send it backward.
    Down,
    /// An arrow to a stop: play once.
    Once,
    /// A closed circuit: play again from the top.
    Loop,
    /// Two arrows head to tail: play forwards, then backwards.
    PingPong,
    /// A filled triangle: playing.
    Play,
    /// A filled square: stopped.
    Stop,
    /// A filled disc: recording.
    Record,
    /// A circular arrow: put it back the way it was.
    Reset,
}

} // verus!
