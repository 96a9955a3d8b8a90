//! What the panels hand back: intents, never writes.
//!
//! A panel that wants to change something returns the intent; one writer
//! system performs it through the command stack.

use vstd::prelude::*;
use crate::ids::LayerId;
use crate::output::config::OutputConfig;

verus! {

/// What the operator asked to do to a layer.
#[derive(Debug, Clone, Copy, PartialEq, Eq, Structural)]
pub enum LayerEdit {
    SetVisible(LayerId, bool),
    /// Put the artwork back at the middle of the stage at its original size.
    ResetPlacement(LayerId),
    Duplicate(LayerId),
    Delete(LayerId),
    /// Lock the layer against the pointer, or unlock it.
    SetLocked(LayerId, bool),
}

/// Which of a joint's three parameters a Learn is arming against.
#[derive(Debug, Clone, Copy, PartialEq, Eq, Structural)]
pub enum LearnAxis {
    X,
    Y,
    Rotation,
}

/// What the Output panel asked for this frame.
#[derive(Debug, Clone, Copy, PartialEq, Eq)]
pub struct OutputEdits {
    pub set_vsync: Option<bool>,
    pub set_fullscreen: Option<bool>,
    /// The stage size, which is document state and goes through the command
    /// stack rather than being poked into the project.
    pub set_canvas: Option<[u32; 2]>,
}

impl Default for OutputEdits {
    /// Nothing asked for.
    fn default() -> (e: Self)
        ensures
            e.set_vsync is None,
            e.set_fullscreen is None,
            e.set_canvas is None,
    {
        OutputEdits { set_vsync: None, set_fullscreen: None, set_canvas: None }
    }
}

/// What the editor knows about the output window.
///
/// A struct rather than a tuple because the two strings are not
/// interchangeable: one is a chip, the other is a sentence.
#[derive(Debug, Clone)]
pub struct OutputInfo {
    pub vsync: bool,
    /// Whether the window is fullscreen right now, not what was asked for.
    pub fullscreen: bool,
    /// Full explanation, for the panel and the chip's tooltip.
    pub description: String,
    /// Two or three words, for the title bar chip.
    pub short: String,
}

/// The smallest stage edge the resolution fields accept, in pixels.
pub const MIN_CANVAS: u32 = 16;

/// The canvas the resolution fields ask for: each edge at least
/// [`MIN_CANVAS`].
pub fn canvas_request(w: u32, h: u32) -> (c: [u32; 2])
    ensures
        c[0] == (if w < MIN_CANVAS {
            MIN_CANVAS
        } else {
            w
        }),
        c[1] == (if h < MIN_CANVAS {
            MIN_CANVAS
        } else {
            h
        }),
{
    let w = if w < MIN_CANVAS {
        MIN_CANVAS
    } else {
        w
    };
    let h = if h < MIN_CANVAS {
        MIN_CANVAS
    } else {
        h
    };
    [w, h]
}

/// Apply the Output panel's switches to the output settings. Vsync and
/// fullscreen are preferences about this machine, not part of the show, so
/// they are written straight in; nothing else changes.
pub fn apply_output_edits(cfg: &mut OutputConfig, edits: &OutputEdits)
    ensures
        final(cfg).vsync == match edits.set_vsync {
            Some(on) => on,
            None => old(cfg).vsync,
        },
        final(cfg).fullscreen == match edits.set_fullscreen {
            Some(on) => Some(on),
            None => old(cfg).fullscreen,
        },
        final(cfg).enabled == old(cfg).enabled,
        final(cfg).monitor_override == old(cfg).monitor_override,
{
    if let Some(on) = edits.set_vsync {
        cfg.vsync = on;
    }
    if let Some(on) = edits.set_fullscreen {
        cfg.fullscreen = Some(on);
    }
}

/// The stage size to change to, if the panel asked for one that differs from
/// the current canvas. Re-cropping the show is a document edit, and an edit
/// that changes nothing would still cost an undo step.
pub fn canvas_change(current: [u32; 2], edits: &OutputEdits) -> (r: Option<[u32; 2]>)
    ensures
        r == match edits.set_canvas {
            Some(to) => if to[0] == current[0] && to[1] == current[1] {
                None
            } else {
                Some(to)
            },
            None => None,
        },
{
    match edits.set_canvas {
        Some(to) => if to[0] == current[0] && to[1] == current[1] {
            None
        } else {
            Some(to)
        },
        None => None,
    }
}

} // verus!
