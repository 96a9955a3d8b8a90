//! One frame of what the panels asked for, and how it is carried out.
//!
//! The panels never write: they hand back requests. This decides, for one
//! frame of them, what the sequencer does, what is session state, what goes
//! through the command stack (and so can be undone) and in what order, and
//! what becomes of the selection.

use vstd::prelude::*;
use crate::editor::dock::{canvas_change, LayerEdit, OutputEdits};
use crate::editor::state::{EditMode, Selection};
use crate::ids::{BoneId, JointId, LayerId, PuppetId};

verus! {

/// What the clip panel asked the sequencer for.
#[derive(Debug, Clone, Copy, PartialEq, Eq, Structural)]
pub enum StepRequest {
    Select(usize),
    Clear(usize),
    ClearAll,
    SetRunning(bool),
    SetArmed(bool),
    SetLength(usize),
    /// A new tempo; its value, a float, is clamped by the caller.
    SetBpm,
    ToggleCollapsed,
}

/// One thing done to the sequencer.
#[derive(Debug, Clone, Copy, PartialEq, Eq, Structural)]
pub enum SequencerOp {
    Select(usize),
    Clear(usize),
    ClearAll,
    SetRunning(bool),
    /// Put the playhead back at the start of the bar.
    Rewind,
    SetArmed(bool),
    SetLength(usize),
    SetBpm,
    ToggleCollapsed,
}

/// What one request does. Stopping also rewinds and disarms: a run that
/// started mid-bar is the one thing a grid must never do.
pub open spec fn ops_for(a: StepRequest) -> Seq<SequencerOp> {
    match a {
        StepRequest::Select(i) => seq![SequencerOp::Select(i)],
        StepRequest::Clear(i) => seq![SequencerOp::Clear(i)],
        StepRequest::ClearAll => seq![SequencerOp::ClearAll],
        StepRequest::SetRunning(on) => if on {
            seq![SequencerOp::SetRunning(true)]
        } else {
            seq![SequencerOp::SetRunning(false), SequencerOp::Rewind, SequencerOp::SetArmed(false)]
        },
        StepRequest::SetArmed(on) => seq![SequencerOp::SetArmed(on)],
        StepRequest::SetLength(n) => seq![SequencerOp::SetLength(n)],
        StepRequest::SetBpm => seq![SequencerOp::SetBpm],
        StepRequest::ToggleCollapsed => seq![SequencerOp::ToggleCollapsed],
    }
}

/// What a list of requests does, in order.
pub open spec fn sequencer_ops(acts: Seq<StepRequest>) -> Seq<SequencerOp>
    decreases acts.len(),
{
    if acts.len() == 0 {
        seq![]
    } else {
        sequencer_ops(acts.drop_last()) + ops_for(acts.last())
    }
}

/// An inspector edit, by kind: a parameter change, or a deletion, which is
/// built where the document is in hand.
#[derive(Debug, Clone, Copy, PartialEq, Eq, Structural)]
pub enum InspectorCommandKind {
    /// A bone, joint, layer or solver parameter: one command, as asked.
    Parameter,
    DeleteJoint(PuppetId, JointId),
    DeleteBone(PuppetId, BoneId),
}

/// One inspector edit.
#[derive(Debug, Clone, Copy, PartialEq, Eq, Structural)]
pub struct InspectorRequest {
    pub command: Option<InspectorCommandKind>,
    /// For a deletion: the rig holds what it names, so the deletion can be
    /// built.
    pub found: bool,
    /// The control was let go: the gesture is over.
    pub released: bool,
}

/// What goes through the command stack, in order.
#[derive(Debug, Clone, Copy, PartialEq, Eq)]
pub enum DocEdit {
    /// Re-crop the show to a new stage size.
    Canvas([u32; 2]),
    Inspector(InspectorCommandKind),
    /// Seal the undo step so the next edit starts its own.
    SealGesture,
    MoveLayer(LayerId, i32),
    Layer(LayerEdit),
    Undo,
    Redo,
}

/// A deletion that cannot be built is dropped whole, its release with it.
pub open spec fn skipped(r: InspectorRequest) -> bool {
    match r.command {
        Some(InspectorCommandKind::DeleteJoint(_, _)) => !r.found,
        Some(InspectorCommandKind::DeleteBone(_, _)) => !r.found,
        _ => false,
    }
}

/// A deletion that is built clears the selection: it may name what goes.
pub open spec fn clears_selection(r: InspectorRequest) -> bool {
    match r.command {
        Some(InspectorCommandKind::DeleteJoint(_, _)) => r.found,
        Some(InspectorCommandKind::DeleteBone(_, _)) => r.found,
        _ => false,
    }
}

/// The command-stack edits one inspector request makes.
pub open spec fn inspector_edits_for(r: InspectorRequest) -> Seq<DocEdit> {
    if skipped(r) {
        seq![]
    } else {
        (match r.command {
            Some(k) => seq![DocEdit::Inspector(k)],
            None => seq![],
        }) + (if r.released {
            seq![DocEdit::SealGesture]
        } else {
            seq![]
        })
    }
}

/// The command-stack edits of a list of inspector requests, in order.
pub open spec fn inspector_edits(reqs: Seq<InspectorRequest>) -> Seq<DocEdit>
    decreases reqs.len(),
{
    if reqs.len() == 0 {
        seq![]
    } else {
        inspector_edits(reqs.drop_last()) + inspector_edits_for(reqs.last())
    }
}

/// The selection after the inspector's requests.
pub open spec fn selection_after_inspector(sel: Selection, reqs: Seq<InspectorRequest>) -> Selection {
    if exists|i: int| 0 <= i < reqs.len() && clears_selection(#[trigger] reqs[i]) {
        Selection::Empty
    } else {
        sel
    }
}

/// The selection after a list of layer edits: deleting the selected layer
/// clears it.
pub open spec fn selection_after_layers(sel: Selection, edits: Seq<LayerEdit>) -> Selection
    decreases edits.len(),
{
    if edits.len() == 0 {
        sel
    } else {
        let before = selection_after_layers(sel, edits.drop_last());
        match edits.last() {
            LayerEdit::Delete(l) => if before == Selection::Layer(l) {
                Selection::Empty
            } else {
                before
            },
            _ => before,
        }
    }
}

/// Everything the panels asked for this frame, as plain values.
#[derive(Debug, Clone)]
pub struct PanelRequests {
    pub step_actions: Vec<StepRequest>,
    /// Put every puppet back on its rest pose.
    pub wants_reset_pose: bool,
    /// A pose rotation was dialled for the selected joint (its angle, a
    /// float, stays with the caller).
    pub live_rotation: bool,
    pub wants_fit: bool,
    pub output_edits: OutputEdits,
    /// The output vsync switch.
    pub set_output_vsync: Option<bool>,
    pub inspector: Vec<InspectorRequest>,
    pub layer_move: Option<(LayerId, i32)>,
    pub layer_edits: Vec<LayerEdit>,
    pub wants_undo: bool,
    pub wants_redo: bool,
}

/// How one frame of requests is carried out.
#[derive(Debug, Clone)]
pub struct PanelPlan {
    pub sequencer: Vec<SequencerOp>,
    /// The joint a dialled rotation is held on, as session state; applied
    /// before a pose reset.
    pub rotate_joint: Option<(PuppetId, JointId)>,
    /// Back to rest: every solver reset, every target released, any joint
    /// drag dropped and every held rotation forgotten. Nothing reaches the
    /// document.
    pub reset_pose: bool,
    /// Ask the viewport to frame everything: a view change.
    pub request_fit: bool,
    /// The output settings to write: preferences of this machine, not part
    /// of the show, so not undoable.
    pub vsync: Option<bool>,
    pub fullscreen: Option<bool>,
    /// What goes through the command stack, in order.
    pub doc_edits: Vec<DocEdit>,
    /// The selection afterwards.
    pub selection: Selection,
}

/// The command-stack edits of a frame: the stage size if it changes, the
/// inspector's edits, the layer move, the layer edits, then undo and redo.
pub open spec fn doc_edits_spec(req: PanelRequests, canvas: [u32; 2]) -> Seq<DocEdit> {
    (match canvas_change_spec(canvas, req.output_edits) {
        Some(to) => seq![DocEdit::Canvas(to)],
        None => seq![],
    }) + inspector_edits(req.inspector@) + (match req.layer_move {
        Some((l, d)) => seq![DocEdit::MoveLayer(l, d)],
        None => seq![],
    }) + req.layer_edits@.map_values(|e: LayerEdit| DocEdit::Layer(e)) + (if req.wants_undo {
        seq![DocEdit::Undo]
    } else {
        seq![]
    }) + (if req.wants_redo {
        seq![DocEdit::Redo]
    } else {
        seq![]
    })
}

/// The stage size a frame changes to, as [`canvas_change`] decides it.
pub open spec fn canvas_change_spec(current: [u32; 2], edits: OutputEdits) -> Option<[u32; 2]> {
    match edits.set_canvas {
        Some(to) => if to[0] == current[0] && to[1] == current[1] {
            None
        } else {
            Some(to)
        },
        None => None,
    }
}

/// Whether a frame's plan is what the rules say.
pub open spec fn panel_spec(p: PanelPlan, req: PanelRequests, selection: Selection, canvas: [u32; 2]) -> bool {
    &&& p.sequencer@ == sequencer_ops(req.step_actions@)
    &&& p.rotate_joint == (if req.live_rotation {
        match selection {
            Selection::Joint(pid, jid) => Some((pid, jid)),
            _ => None,
        }
    } else {
        None
    })
    &&& p.reset_pose == req.wants_reset_pose
    &&& p.request_fit == req.wants_fit
    &&& p.vsync == (if req.set_output_vsync is Some {
        req.set_output_vsync
    } else {
        req.output_edits.set_vsync
    })
    &&& p.fullscreen == req.output_edits.set_fullscreen
    &&& p.doc_edits@ == doc_edits_spec(req, canvas)
    &&& p.selection == selection_after_layers(
        selection_after_inspector(selection, req.inspector@),
        req.layer_edits@,
    )
}

fn step_ops(acts: &Vec<StepRequest>) -> (out: Vec<SequencerOp>)
    ensures
        out@ == sequencer_ops(acts@),
{
    let mut out: Vec<SequencerOp> = Vec::new();
    let mut i: usize = 0;
    while i < acts.len()
        invariant
            i <= acts.len(),
            out@ == sequencer_ops(acts@.subrange(0, i as int)),
        decreases acts.len() - i,
    {
        let ghost pre = acts@.subrange(0, i + 1);
        assert(pre.drop_last() =~= acts@.subrange(0, i as int));
        assert(pre.last() == acts@[i as int]);
        let ghost before = out@;
        match acts[i] {
            StepRequest::Select(k) => out.push(SequencerOp::Select(k)),
            StepRequest::Clear(k) => out.push(SequencerOp::Clear(k)),
            StepRequest::ClearAll => out.push(SequencerOp::ClearAll),
            StepRequest::SetRunning(on) => {
                out.push(SequencerOp::SetRunning(on));
                if !on {
                    out.push(SequencerOp::Rewind);
                    out.push(SequencerOp::SetArmed(false));
                }
            },
            StepRequest::SetArmed(on) => out.push(SequencerOp::SetArmed(on)),
            StepRequest::SetLength(n) => out.push(SequencerOp::SetLength(n)),
            StepRequest::SetBpm => out.push(SequencerOp::SetBpm),
            StepRequest::ToggleCollapsed => out.push(SequencerOp::ToggleCollapsed),
        }
        assert(out@ =~= before + ops_for(acts@[i as int]));
        i = i + 1;
    }
    assert(acts@.subrange(0, acts.len() as int) =~= acts@);
    out
}

/// Append the inspector's edits, and say whether one cleared the selection.
fn push_inspector_edits(reqs: &Vec<InspectorRequest>, out: &mut Vec<DocEdit>) -> (cleared: bool)
    ensures
        final(out)@ == old(out)@ + inspector_edits(reqs@),
        cleared == exists|i: int| 0 <= i < reqs@.len() && clears_selection(#[trigger] reqs@[i]),
{
    let ghost start = out@;
    let mut cleared = false;
    let mut i: usize = 0;
    assert(start =~= start + inspector_edits(reqs@.subrange(0, 0)));
    while i < reqs.len()
        invariant
            i <= reqs.len(),
            out@ == start + inspector_edits(reqs@.subrange(0, i as int)),
            cleared == exists|k: int| 0 <= k < i && clears_selection(#[trigger] reqs@[k]),
        decreases reqs.len() - i,
    {
        let ghost pre = reqs@.subrange(0, i + 1);
        assert(pre.drop_last() =~= reqs@.subrange(0, i as int));
        assert(pre.last() == reqs@[i as int]);
        let ghost before = out@;
        let r = reqs[i];
        let skip = match r.command {
            Some(InspectorCommandKind::DeleteJoint(_, _)) => !r.found,
            Some(InspectorCommandKind::DeleteBone(_, _)) => !r.found,
            _ => false,
        };
        if !skip {
            match r.command {
                Some(k) => {
                    match k {
                        InspectorCommandKind::Parameter => {},
                        _ => {
                            cleared = true;
                        },
                    }
                    out.push(DocEdit::Inspector(k));
                },
                None => {},
            }
            if r.released {
                out.push(DocEdit::SealGesture);
            }
        }
        assert(out@ =~= before + inspector_edits_for(reqs@[i as int]));
        assert(cleared == exists|k: int| 0 <= k < i + 1 && clears_selection(#[trigger] reqs@[k])) by {
            if clears_selection(reqs@[i as int]) {
                assert(clears_selection(reqs@[i as int]));
            }
        }
        i = i + 1;
    }
    assert(reqs@.subrange(0, reqs.len() as int) =~= reqs@);
    cleared
}

/// How one frame of panel requests is carried out, given the selection and
/// the stage size it began with.
pub fn panel_plan(req: &PanelRequests, selection: Selection, canvas: [u32; 2]) -> (p: PanelPlan)
    ensures
        panel_spec(p, *req, selection, canvas),
{
    let sequencer = step_ops(&req.step_actions);
    let rotate_joint = if req.live_rotation {
        match selection {
            Selection::Joint(pid, jid) => Some((pid, jid)),
            _ => None,
        }
    } else {
        None
    };
    let vsync = if req.set_output_vsync.is_some() {
        req.set_output_vsync
    } else {
        req.output_edits.set_vsync
    };
    let mut doc_edits: Vec<DocEdit> = Vec::new();
    match canvas_change(canvas, &req.output_edits) {
        Some(to) => doc_edits.push(DocEdit::Canvas(to)),
        None => {},
    }
    let ghost after_canvas = doc_edits@;
    let cleared = push_inspector_edits(&req.inspector, &mut doc_edits);
    let ghost after_inspector = doc_edits@;
    match req.layer_move {
        Some((l, d)) => doc_edits.push(DocEdit::MoveLayer(l, d)),
        None => {},
    }
    let ghost after_move = doc_edits@;
    let mut sel = if cleared {
        Selection::Empty
    } else {
        selection
    };
    let ghost sel0 = sel;
    let mut i: usize = 0;
    assert(sel0 == selection_after_layers(sel0, req.layer_edits@.subrange(0, 0)));
    while i < req.layer_edits.len()
        invariant
            i <= req.layer_edits.len(),
            doc_edits@ == after_move + req.layer_edits@.subrange(0, i as int).map_values(
                |e: LayerEdit| DocEdit::Layer(e),
            ),
            sel == selection_after_layers(sel0, req.layer_edits@.subrange(0, i as int)),
        decreases req.layer_edits.len() - i,
    {
        let ghost pre = req.layer_edits@.subrange(0, i + 1);
        assert(pre.drop_last() =~= req.layer_edits@.subrange(0, i as int));
        assert(pre.last() == req.layer_edits@[i as int]);
        let e = req.layer_edits[i];
        doc_edits.push(DocEdit::Layer(e));
        match e {
            LayerEdit::Delete(l) => {
                if sel == Selection::Layer(l) {
                    sel = Selection::Empty;
                }
            },
            _ => {},
        }
        assert(pre.map_values(|e: LayerEdit| DocEdit::Layer(e)) =~= req.layer_edits@.subrange(
            0,
            i as int,
        ).map_values(|e: LayerEdit| DocEdit::Layer(e)).push(DocEdit::Layer(e)));
        i = i + 1;
    }
    assert(req.layer_edits@.subrange(0, req.layer_edits.len() as int) =~= req.layer_edits@);
    let ghost after_layers = doc_edits@;
    if req.wants_undo {
        doc_edits.push(DocEdit::Undo);
    }
    let ghost after_undo = doc_edits@;
    if req.wants_redo {
        doc_edits.push(DocEdit::Redo);
    }
    assert(doc_edits@ =~= doc_edits_spec(*req, canvas));
    PanelPlan {
        sequencer,
        rotate_joint,
        reset_pose: req.wants_reset_pose,
        request_fit: req.wants_fit,
        vsync,
        fullscreen: req.output_edits.set_fullscreen,
        doc_edits,
        selection: sel,
    }
}

/// **Stopping never leaves the playhead mid-bar.** Whatever else a frame
/// asks of the sequencer, a stop is followed at once by a rewind and a
/// disarm.
pub proof fn law_stopping_rewinds_and_disarms(acts: Seq<StepRequest>, i: int)
    requires
        0 <= i < acts.len(),
        acts[i] == StepRequest::SetRunning(false),
    ensures
        exists|k: int|
            0 <= k && k + 2 < sequencer_ops(acts).len() && #[trigger] sequencer_ops(acts)[k]
                == SequencerOp::SetRunning(false) && sequencer_ops(acts)[k + 1] == SequencerOp::Rewind
                && sequencer_ops(acts)[k + 2] == SequencerOp::SetArmed(false),
    decreases acts.len(),
{
    let d = acts.drop_last();
    let ops = sequencer_ops(acts);
    if i < acts.len() - 1 {
        assert(d[i] == acts[i]);
        law_stopping_rewinds_and_disarms(d, i);
        let k = choose|k: int|
            0 <= k && k + 2 < sequencer_ops(d).len() && #[trigger] sequencer_ops(d)[k]
                == SequencerOp::SetRunning(false) && sequencer_ops(d)[k + 1] == SequencerOp::Rewind
                && sequencer_ops(d)[k + 2] == SequencerOp::SetArmed(false);
        assert(ops[k] == sequencer_ops(d)[k]);
        assert(ops[k + 1] == sequencer_ops(d)[k + 1]);
        assert(ops[k + 2] == sequencer_ops(d)[k + 2]);
    } else {
        let k = sequencer_ops(d).len() as int;
        assert(acts.last() == StepRequest::SetRunning(false));
        assert(ops[k] == SequencerOp::SetRunning(false));
    }
}

/// **A pose is never an edit.** Dialling a rotation, resetting the pose and
/// framing the view put nothing through the command stack: with no stage
/// size, inspector, layer or history request, a frame makes no edit.
pub proof fn law_poses_and_views_are_not_edits(req: PanelRequests, canvas: [u32; 2])
    requires
        req.output_edits.set_canvas is None,
        req.inspector@.len() == 0,
        req.layer_move is None,
        req.layer_edits@.len() == 0,
        !req.wants_undo,
        !req.wants_redo,
    ensures
        doc_edits_spec(req, canvas) == Seq::<DocEdit>::empty(),
{
    assert(req.layer_edits@.map_values(|e: LayerEdit| DocEdit::Layer(e)) =~= Seq::<DocEdit>::empty());
    assert(doc_edits_spec(req, canvas) =~= Seq::<DocEdit>::empty());
}

/// Whether live recording may be armed: in Edit and Perform, never in Rig.
pub fn record_allowed(mode: EditMode) -> (b: bool)
    ensures
        b == (mode != EditMode::Rig),
{
    mode != EditMode::Rig
}

/// What a click on the record button asks for: to flip the arming, when
/// recording is allowed at all (the button is disabled in Rig).
pub fn record_click(mode: EditMode, armed: bool) -> (r: Option<StepRequest>)
    ensures
        r == (if mode != EditMode::Rig {
            Some(StepRequest::SetArmed(!armed))
        } else {
            None
        }),
{
    if record_allowed(mode) {
        Some(StepRequest::SetArmed(!armed))
    } else {
        None
    }
}

/// The record button's hover text.
pub fn record_hint(mode: EditMode) -> (s: &'static str)
    ensures
        s@ == (if mode != EditMode::Rig {
            "Arm live input. Hold TAP to write hits into the selected track under the playhead."@
        } else {
            "Recording belongs to EDIT and PERFORM, not to RIG."@
        }),
{
    if mode != EditMode::Rig {
        "Arm live input. Hold TAP to write hits into the selected track under the playhead."
    } else {
        "Recording belongs to EDIT and PERFORM, not to RIG."
    }
}

proof fn lemma_inspector_edits_touch_no_history(reqs: Seq<InspectorRequest>)
    ensures
        forall|k: int|
            0 <= k < inspector_edits(reqs).len() ==> !(#[trigger] inspector_edits(reqs)[k] is Undo)
                && !(inspector_edits(reqs)[k] is Redo),
    decreases reqs.len(),
{
    if reqs.len() > 0 {
        lemma_inspector_edits_touch_no_history(reqs.drop_last());
        let a = inspector_edits(reqs.drop_last());
        let b = inspector_edits_for(reqs.last());
        assert(inspector_edits(reqs) == a + b);
        assert forall|k: int| 0 <= k < (a + b).len() implies !(#[trigger] (a + b)[k] is Undo) && !((a
            + b)[k] is Redo) by {
            if k < a.len() {
                assert((a + b)[k] == a[k]);
            } else {
                assert((a + b)[k] == b[k - a.len()]);
            }
        }
    }
}

/// **Undo undoes and redo redoes, last.** A frame's document edits hold an
/// undo exactly when undo was asked for and a redo exactly when redo was,
/// each at most once; they come after every other edit, undo before redo,
/// so a redo asked for is the last thing done.
pub proof fn law_history_requests_come_last(req: PanelRequests, canvas: [u32; 2])
    ensures
        ({
            let e = doc_edits_spec(req, canvas);
            let n = e.len();
            &&& (exists|k: int| 0 <= k < n && e[k] == DocEdit::Redo) <==> req.wants_redo
            &&& (exists|k: int| 0 <= k < n && e[k] == DocEdit::Undo) <==> req.wants_undo
            &&& req.wants_redo ==> e[n - 1] == DocEdit::Redo
            &&& req.wants_undo && !req.wants_redo ==> e[n - 1] == DocEdit::Undo
            &&& req.wants_undo && req.wants_redo ==> e[n - 2] == DocEdit::Undo
            &&& forall|k: int|
                0 <= k < n && (e[k] == DocEdit::Undo || e[k] == DocEdit::Redo) ==> k >= n - (if req.wants_undo {
                    1int
                } else {
                    0
                }) - (if req.wants_redo {
                    1int
                } else {
                    0
                })
        }),
{
    lemma_inspector_edits_touch_no_history(req.inspector@);
    let head = (match canvas_change_spec(canvas, req.output_edits) {
        Some(to) => seq![DocEdit::Canvas(to)],
        None => seq![],
    }) + inspector_edits(req.inspector@) + (match req.layer_move {
        Some((l, d)) => seq![DocEdit::MoveLayer(l, d)],
        None => seq![],
    }) + req.layer_edits@.map_values(|e: LayerEdit| DocEdit::Layer(e));
    let ins = inspector_edits(req.inspector@);
    let canv: Seq<DocEdit> = match canvas_change_spec(canvas, req.output_edits) {
        Some(to) => seq![DocEdit::Canvas(to)],
        None => seq![],
    };
    let mv: Seq<DocEdit> = match req.layer_move {
        Some((l, d)) => seq![DocEdit::MoveLayer(l, d)],
        None => seq![],
    };
    let lay = req.layer_edits@.map_values(|e: LayerEdit| DocEdit::Layer(e));
    assert(head == canv + ins + mv + lay);
    assert forall|k: int| 0 <= k < head.len() implies !(#[trigger] head[k] is Undo) && !(head[k] is Redo) by {
        if k < canv.len() {
            assert(head[k] == canv[k]);
        } else if k < canv.len() + ins.len() {
            assert(head[k] == ins[k - canv.len()]);
        } else if k < canv.len() + ins.len() + mv.len() {
            assert(head[k] == mv[k - canv.len() - ins.len()]);
        } else {
            assert(head[k] == lay[k - canv.len() - ins.len() - mv.len()]);
        }
    }
    let u: Seq<DocEdit> = if req.wants_undo {
        seq![DocEdit::Undo]
    } else {
        seq![]
    };
    let r: Seq<DocEdit> = if req.wants_redo {
        seq![DocEdit::Redo]
    } else {
        seq![]
    };
    let e = doc_edits_spec(req, canvas);
    assert(e == head + u + r);
    let n = e.len();
    assert forall|k: int| 0 <= k < head.len() implies #[trigger] e[k] == head[k] by {}
    if req.wants_redo {
        assert(e[n - 1] == DocEdit::Redo);
    }
    if req.wants_undo {
        assert(e[head.len() as int] == DocEdit::Undo);
    }
    if exists|k: int| 0 <= k < n && e[k] == DocEdit::Redo {
        let k = choose|k: int| 0 <= k < n && e[k] == DocEdit::Redo;
        if k < head.len() {
            assert(e[k] == head[k]);
        } else if k < head.len() + u.len() {
            assert(e[k] == u[k - head.len()]);
        }
    }
    if exists|k: int| 0 <= k < n && e[k] == DocEdit::Undo {
        let k = choose|k: int| 0 <= k < n && e[k] == DocEdit::Undo;
        if k < head.len() {
            assert(e[k] == head[k]);
        } else if k >= head.len() + u.len() {
            assert(e[k] == r[k - head.len() - u.len()]);
        }
    }
    assert forall|k: int|
        0 <= k < n && (e[k] == DocEdit::Undo || e[k] == DocEdit::Redo) implies k >= n - (if req.wants_undo {
        1int
    } else {
        0
    }) - (if req.wants_redo {
        1int
    } else {
        0
    }) by {
        if k < head.len() {
            assert(e[k] == head[k]);
        }
    }
}

proof fn lemma_selection_after_layers(sel: Selection, edits: Seq<LayerEdit>)
    ensures
        selection_after_layers(sel, edits) == sel || selection_after_layers(sel, edits)
            == Selection::Empty,
        sel == Selection::Empty ==> selection_after_layers(sel, edits) == Selection::Empty,
        (forall|k: int| 0 <= k < edits.len() ==> !(#[trigger] edits[k] == LayerEdit::Delete(
            sel->Layer_0,
        ) && sel is Layer)) ==> selection_after_layers(sel, edits) == sel,
    decreases edits.len(),
{
    if edits.len() > 0 {
        let d = edits.drop_last();
        lemma_selection_after_layers(sel, d);
        if forall|k: int| 0 <= k < edits.len() ==> !(#[trigger] edits[k] == LayerEdit::Delete(
            sel->Layer_0,
        ) && sel is Layer) {
            assert forall|k: int| 0 <= k < d.len() implies !(#[trigger] d[k] == LayerEdit::Delete(
                sel->Layer_0,
            ) && sel is Layer) by {
                assert(d[k] == edits[k]);
            }
            assert(edits[edits.len() - 1] == edits.last());
        }
    }
}

/// **What a frame of panel requests does besides the document.** The
/// output vsync switch has the last word over the Output panel's vsync;
/// fullscreen is as the panel asked; a dialled rotation goes to the selected
/// joint and nowhere else; a pose reset and a fit are done exactly when
/// asked. The selection afterwards is the one before or nothing: nothing
/// when a deletion was built, and unchanged when no deletion touches it.
pub proof fn law_what_a_frame_of_panels_does(
    p: PanelPlan,
    req: PanelRequests,
    selection: Selection,
    canvas: [u32; 2],
)
    requires
        panel_spec(p, req, selection, canvas),
    ensures
        req.set_output_vsync is Some ==> p.vsync == req.set_output_vsync,
        req.set_output_vsync is None ==> p.vsync == req.output_edits.set_vsync,
        p.fullscreen == req.output_edits.set_fullscreen,
        p.rotate_joint is Some <==> (req.live_rotation && selection is Joint),
        (req.live_rotation && selection is Joint) ==> p.rotate_joint == Some(
            (selection->Joint_0, selection->Joint_1),
        ),
        p.reset_pose == req.wants_reset_pose,
        p.request_fit == req.wants_fit,
        p.selection == selection || p.selection == Selection::Empty,
        (exists|i: int| 0 <= i < req.inspector@.len() && clears_selection(#[trigger] req.inspector@[i]))
            ==> p.selection == Selection::Empty,
        ((forall|i: int| 0 <= i < req.inspector@.len() ==> !clears_selection(#[trigger] req.inspector@[i]))
            && !(selection is Layer && req.layer_edits@.contains(LayerEdit::Delete(selection->Layer_0))))
            ==> p.selection == selection,
{
    let after = selection_after_inspector(selection, req.inspector@);
    lemma_selection_after_layers(after, req.layer_edits@);
    if !(selection is Layer && req.layer_edits@.contains(LayerEdit::Delete(selection->Layer_0))) {
        assert forall|k: int| 0 <= k < req.layer_edits@.len() implies !(#[trigger] req.layer_edits@[k]
            == LayerEdit::Delete(selection->Layer_0) && selection is Layer) by {
            if selection is Layer && req.layer_edits@[k] == LayerEdit::Delete(selection->Layer_0) {
                assert(req.layer_edits@.contains(LayerEdit::Delete(selection->Layer_0)));
            }
        }
    }
}

} // verus!
