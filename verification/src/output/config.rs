//! The operator's output settings, and how a change to them is applied.

use vstd::prelude::*;

verus! {

/// The operator's output settings.
#[derive(Debug, Clone, Copy, PartialEq, Eq)]
pub struct OutputConfig {
    /// Open the output window at startup.
    pub enabled: bool,
    /// Explicit monitor index. At a venue the display that reports as
    /// primary is not always the console.
    pub monitor_override: Option<usize>,
    /// Vsync on the output window: a clean projector image, at the cost of
    /// editor frame rate.
    pub vsync: bool,
    /// Fullscreen on the chosen display. `None` means "decide from the
    /// hardware"; once the operator says either way, that answer sticks.
    pub fullscreen: Option<bool>,
}

impl Default for OutputConfig {
    fn default() -> (c: Self)
        ensures
            c.enabled,
            c.monitor_override is None,
            c.vsync,
            c.fullscreen is None,
    {
        OutputConfig { enabled: true, monitor_override: None, vsync: true, fullscreen: None }
    }
}

/// The fullscreen state to move the output window to, if it must move: only
/// when the operator has said either way and the window is not already so.
pub open spec fn fullscreen_move(wanted: Option<bool>, is_fullscreen: bool) -> Option<bool> {
    match wanted {
        Some(w) => if w == is_fullscreen {
            None
        } else {
            Some(w)
        },
        None => None,
    }
}

/// See [`fullscreen_move`].
pub fn fullscreen_change(wanted: Option<bool>, is_fullscreen: bool) -> (r: Option<bool>)
    ensures
        r == fullscreen_move(wanted, is_fullscreen),
{
    match wanted {
        Some(w) => if w == is_fullscreen {
            None
        } else {
            Some(w)
        },
        None => None,
    }
}

/// The window after a move (or none).
pub open spec fn after_move(is_fullscreen: bool, m: Option<bool>) -> bool {
    match m {
        Some(w) => w,
        None => is_fullscreen,
    }
}

/// One move settles it: once applied, the same setting asks for no further
/// move, and the window is as the operator asked.
pub proof fn law_fullscreen_change_settles(wanted: Option<bool>, is_fullscreen: bool)
    ensures
        fullscreen_move(wanted, after_move(is_fullscreen, fullscreen_move(wanted, is_fullscreen)))
            is None,
        wanted matches Some(w) ==> after_move(is_fullscreen, fullscreen_move(wanted, is_fullscreen))
            == w,
{
}

} // verus!
