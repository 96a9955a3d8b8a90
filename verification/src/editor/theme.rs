//! The design system's palette, as plain colour values.
//!
//! **The Signal Rule.** Saturated colour is state, never decoration: green is
//! ready or armed, coral is live or destructive, cyan is data and I/O, amber
//! is caution, violet is grouping. **The Readable Floor.** Anything read sits
//! at the dim ink or brighter; faint and ghost are decoration only.
//!
//! A colour is sRGB with premultiplied alpha, the form the UI toolkit takes
//! it in, packed into a `u32` as `0xRRGGBBAA`.

use vstd::prelude::*;

pub mod gizmo;

verus! {

// ── surfaces ──────────────────────────────────────────────────────────
pub const APP_BG: u32 = 0x0A0C0FFF;
pub const WORKSPACE: u32 = 0x14171DFF;
pub const SIDE_PANEL: u32 = 0x0D0F13FF;
pub const MENU_BG: u32 = 0x171B22FF;
/// The cool raised card a *live* object becomes.
pub const PLAYING_CARD: u32 = 0x1B212CFF;
pub const STATUS_BG: u32 = 0x0C0E12FF;
/// Video and viewport backgrounds are true black, always.
pub const SCREEN_BLACK: u32 = 0x000000FF;

// ── white veils: the structure ────────────────────────────────────────
pub const WELL: u32 = 0x09090909;
pub const WELL_HOVER: u32 = 0x0D0D0D0D;
/// The only line this UI draws.
pub const SEAM: u32 = 0x0F0F0F0F;
pub const ROW_SEP: u32 = 0x08080808;
pub const TRACK_BG: u32 = 0x12121212;

// ── the ink ramp ──────────────────────────────────────────────────────
pub const BRIGHT: u32 = 0xE9ECF0FF;
pub const INK: u32 = 0xDEE2E8FF;
pub const MID: u32 = 0xC6CBD3FF;
pub const SOFT: u32 = 0x9AA1ABFF;
pub const SUB: u32 = 0x8B93A0FF;
/// The readable floor. Nothing carrying information goes below this.
pub const DIM: u32 = 0x7A828EFF;
pub const FAINT: u32 = 0x4E555FFF;
pub const GHOST: u32 = 0x3F454EFF;
/// Between [`MID`] and [`SOFT`]: the second line of a two-line row.
pub const MUTED: u32 = 0xAEB5BFFF;
/// Below [`DIM`] but still legible: hints under a control.
pub const HINT: u32 = 0x6B727DFF;
/// A control that is present and cannot be used.
pub const DISABLED: u32 = 0x5E6672FF;

// ── signals: state, never decoration ──────────────────────────────────
pub const GO_GREEN: u32 = 0x57C878FF;
pub const GO_BUTTON: u32 = 0x2E9D57FF;
pub const GO_VIVID: u32 = 0x32C96BFF;
pub const LIVE_CORAL: u32 = 0xF2606AFF;
pub const DATA_CYAN: u32 = 0x45C8E8FF;
pub const CAUTION_AMBER: u32 = 0xE3A94FFF;
pub const GROUP_VIOLET: u32 = 0x8F8FFFFF;
/// The selection blue. Nothing else in the palette means "this one".
pub const SELECT: u32 = 0x4FA0DCFF;

// ── washes: a signal's own quiet surface ──────────────────────────────
pub const GO_WASH: u32 = 0x0C1C1124;
pub const STOP_WASH: u32 = 0x190A0B1A;
pub const STOP_BORDER: u32 = 0x61262A66;
/// The one opaque wash: a recording surface has to stay legible.
pub const STOP_SURFACE: u32 = 0x1A1215FF;
pub const WARN_WASH: u32 = 0x1711081A;
pub const LIVE_WASH: u32 = 0x0A1C2124;
pub const SELECT_WASH: u32 = 0x0D1A2329;

/// The signal colours: saturated, and therefore state.

pub open spec fn is_signal(c: u32) -> bool {
    c == GO_GREEN || c == GO_BUTTON || c == LIVE_CORAL || c == CAUTION_AMBER || c == GROUP_VIOLET
}

} // verus!
