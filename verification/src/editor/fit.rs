//! Framing the puppet in the viewport: when a fit is asked for, and when a
//! frame can serve one.
//!
//! A fit is a request rather than a call, because it needs the camera's
//! *measured* world-per-pixel, which only exists once the camera has a
//! viewport. The flag survives until a frame can honour it.

use vstd::prelude::*;

verus! {

/// Set to ask for a fit on the next frame that can serve one.
#[derive(Debug, Clone, Copy, PartialEq, Eq, Structural)]
pub struct WantsFit(pub bool);

/// True once a fit has been asked for the current document, so the
/// automatic one happens once rather than every frame a puppet exists.
#[derive(Debug, Clone, Copy, PartialEq, Eq, Structural)]
pub struct AutoFitDone(pub bool);

impl Default for WantsFit {
    fn default() -> (w: Self)
        ensures
            !w.0,
    {
        WantsFit(false)
    }
}

impl Default for AutoFitDone {
    fn default() -> (d: Self)
        ensures
            !d.0,
    {
        AutoFitDone(false)
    }
}

/// Ask for a fit when a document first has something to look at — once.
pub fn request_fit_on_load(has_content: bool, wants: &mut WantsFit, done: &mut AutoFitDone)
    ensures
        old(done).0 || !has_content ==> *final(wants) == *old(wants) && *final(done) == *old(done),
        !old(done).0 && has_content ==> final(wants).0 && final(done).0,
{
    if done.0 {
        return;
    }
    if has_content {
        wants.0 = true;
        done.0 = true;
    }
}

/// F frames everything, unless a text field has the keyboard.
pub fn fit_shortcut(keyboard_taken: bool, f_pressed: bool, wants: &mut WantsFit)
    ensures
        final(wants).0 == (old(wants).0 || (!keyboard_taken && f_pressed)),
{
    if !keyboard_taken && f_pressed {
        wants.0 = true;
    }
}

/// Whether this frame may serve a pending fit, remembering its size.
///
/// Only against a frame size that held still since the last frame: on the
/// first frames the panels have not yet taken their share, and a fit
/// computed there frames the puppet for a viewport it is about to lose.
pub fn fit_ready(wants: WantsFit, size: [u32; 2], last_size: &mut [u32; 2]) -> (ready: bool)
    ensures
        *final(last_size) == size,
        ready == (wants.0 && size == *old(last_size)),
{
    let stable = size[0] == last_size[0] && size[1] == last_size[1];
    *last_size = size;
    assert(stable == (size =~= *old(last_size)));
    wants.0 && stable
}

} // verus!
