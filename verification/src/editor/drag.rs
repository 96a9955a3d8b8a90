//! Dragging a joint, in the modes that mean different things.
//!
//! - **Rig**: the drag moves the joint's *rest position*. It becomes a
//!   [`MoveJointRest`] command — undoable, merged into one step per gesture —
//!   and the document changes.
//! - **Edit** and **Live**: the drag writes a *target* and the solver pulls
//!   the puppet toward it. **The document is never touched.**
//!
//! The machine is a pure value: (state, event, mode) in, effects out. One
//! system applies the effects; nothing else writes. Positions are whatever
//! the caller measures them in (image pixels); the machine only carries them.

use vstd::prelude::*;
use crate::editor::state::EditMode;
use crate::ids::{JointId, PuppetId};

verus! {

/// Move a joint's rest position from `from` to `to`: the undoable command a
/// rig drag produces.
#[derive(Debug, Clone, Copy, PartialEq)]
pub struct MoveJointRest<P> {
    pub puppet: PuppetId,
    pub joint: JointId,
    pub from: P,
    pub to: P,
}

/// A drag in progress, or not.
#[derive(Debug, Clone, Copy, PartialEq)]
pub enum DragState<P> {
    Idle,
    /// A joint is being dragged. `from` is its rest position at grab time,
    /// kept so the whole gesture inverts as one step; `mode` is the mode the
    /// gesture was begun in, and it governs the gesture to its end.
    Dragging { puppet: PuppetId, joint: JointId, from: P, mode: EditMode },
}

/// What the input layer observed this frame.
#[derive(Debug, Clone, Copy, PartialEq)]
pub enum DragEvent<P> {
    /// Button went down at this position.
    Grab(P),
    /// Pointer moved to this position with the button held.
    MoveTo(P),
    /// Button released.
    Release,
}

/// What should happen. The caller applies exactly what is listed.
#[derive(Debug, Clone, Copy, PartialEq)]
pub enum DragEffect<P> {
    /// Nothing to do.
    Nothing,
    /// Rig mode: apply this command (it merges with the gesture's earlier
    /// moves).
    Command(MoveJointRest<P>),
    /// Gesture over: seal the undo entry.
    EndGesture,
    /// Set the solver target for this joint.
    SetTarget { puppet: PuppetId, joint: JointId, pos: P },
    /// Gesture over in live mode: release the target and let the springs
    /// take the limb back.
    ClearTarget { puppet: PuppetId, joint: JointId },
    /// Select the joint that was grabbed, whichever mode.
    Select { puppet: PuppetId, joint: JointId },
}

/// One step of the machine: the next state and the effects, in the order
/// they are to be applied.
///
/// `grabbed` is, for a grab, the joint under the pointer (hit-tested against
/// where each joint is *drawn*) together with its rest position in the
/// document; `None` when no joint is in reach or it has no rest position.
pub open spec fn drag_step<P>(
    state: DragState<P>,
    event: DragEvent<P>,
    mode: EditMode,
    puppet: PuppetId,
    grabbed: Option<(JointId, P)>,
) -> (DragState<P>, Seq<DragEffect<P>>) {
    match (state, event) {
        (DragState::Idle, DragEvent::Grab(pos)) => match grabbed {
            None => (DragState::Idle, seq![DragEffect::Nothing]),
            Some((joint, from)) => {
                let select = DragEffect::Select { puppet, joint };
                (
                    DragState::Dragging { puppet, joint, from, mode },
                    if mode == EditMode::Rig {
                        seq![select]
                    } else {
                        seq![select, DragEffect::SetTarget { puppet, joint, pos }]
                    },
                )
            },
        },
        (DragState::Dragging { puppet, joint, from, mode }, DragEvent::MoveTo(pos)) => (
            state,
            if mode == EditMode::Rig {
                seq![DragEffect::Command(MoveJointRest { puppet, joint, from, to: pos })]
            } else {
                seq![DragEffect::SetTarget { puppet, joint, pos }]
            },
        ),
        (DragState::Dragging { puppet, joint, mode, .. }, DragEvent::Release) => (
            DragState::Idle,
            if mode == EditMode::Live {
                seq![DragEffect::ClearTarget { puppet, joint }]
            } else {
                seq![DragEffect::EndGesture]
            },
        ),
        (DragState::Dragging { .. }, DragEvent::Grab(_)) => (
            DragState::Idle,
            seq![DragEffect::Nothing],
        ),
        (DragState::Idle, _) => (DragState::Idle, seq![DragEffect::Nothing]),
    }
}

/// Advance the machine. Returns the effects in application order.
///
/// Grabbing in a pose mode starts pulling immediately; in Rig a grab only
/// selects. Releasing in Edit keeps the pose (it *is* the standing
/// instruction); releasing in Live hands the limb back to the springs. A
/// grab while dragging — a lost release, say after alt-tab — resets, so the
/// machine cannot wedge.
pub fn step<P: Copy>(
    state: &mut DragState<P>,
    event: DragEvent<P>,
    mode: EditMode,
    puppet: PuppetId,
    grabbed: Option<(JointId, P)>,
) -> (effects: Vec<DragEffect<P>>)
    ensures
        (*final(state), effects@) == drag_step(*old(state), event, mode, puppet, grabbed),
{
    match (*state, event) {
        (DragState::Idle, DragEvent::Grab(pos)) => {
            let (joint, from) = match grabbed {
                Some(g) => g,
                None => return vec![DragEffect::Nothing],
            };
            *state = DragState::Dragging { puppet, joint, from, mode };
            let select = DragEffect::Select { puppet, joint };
            match mode {
                EditMode::Rig => vec![select],
                EditMode::Edit | EditMode::Live => {
                    vec![select, DragEffect::SetTarget { puppet, joint, pos }]
                },
            }
        },
        (DragState::Dragging { puppet, joint, from, mode }, DragEvent::MoveTo(pos)) => match mode {
            EditMode::Rig => vec![
                DragEffect::Command(MoveJointRest { puppet, joint, from, to: pos }),
            ],
            EditMode::Edit | EditMode::Live => vec![DragEffect::SetTarget { puppet, joint, pos }],
        },
        (DragState::Dragging { puppet, joint, mode, .. }, DragEvent::Release) => {
            *state = DragState::Idle;
            match mode {
                EditMode::Rig => vec![DragEffect::EndGesture],
                EditMode::Edit => vec![DragEffect::EndGesture],
                EditMode::Live => vec![DragEffect::ClearTarget { puppet, joint }],
            }
        },
        (DragState::Dragging { .. }, DragEvent::Grab(_)) => {
            *state = DragState::Idle;
            vec![DragEffect::Nothing]
        },
        (DragState::Idle, _) => vec![DragEffect::Nothing],
    }
}

/// Whether an effect writes the document.
pub open spec fn writes_document<P>(e: DragEffect<P>) -> bool {
    e is Command
}

/// **The one-way rule.** Only a gesture begun in Rig ever writes the
/// document: a grab writes nothing, and every other step writes only when
/// the gesture in hand was begun in Rig — whatever mode is current now.
pub proof fn law_only_a_rig_gesture_writes<P>(
    state: DragState<P>,
    event: DragEvent<P>,
    mode: EditMode,
    puppet: PuppetId,
    grabbed: Option<(JointId, P)>,
    i: int,
)
    requires
        0 <= i < drag_step(state, event, mode, puppet, grabbed).1.len(),
        writes_document(drag_step(state, event, mode, puppet, grabbed).1[i]),
    ensures
        state matches DragState::Dragging { mode: gesture_mode, .. } && gesture_mode
            == EditMode::Rig,
        event is MoveTo,
{
}

/// The mode at grab time governs the whole gesture: switching modes while
/// the button is held changes nothing about what the drag does.
pub proof fn law_grab_time_mode_governs<P>(
    state: DragState<P>,
    event: DragEvent<P>,
    now: EditMode,
    other: EditMode,
    puppet: PuppetId,
    grabbed: Option<(JointId, P)>,
)
    requires
        state is Dragging,
    ensures
        drag_step(state, event, now, puppet, grabbed) == drag_step(
            state,
            event,
            other,
            puppet,
            grabbed,
        ),
{
}

/// A release, or a grab that arrives while dragging (the release was lost),
/// always leaves the machine idle: it cannot wedge.
pub proof fn law_the_machine_cannot_wedge<P>(
    state: DragState<P>,
    event: DragEvent<P>,
    mode: EditMode,
    puppet: PuppetId,
    grabbed: Option<(JointId, P)>,
)
    requires
        event is Release || (state is Dragging && event is Grab),
    ensures
        drag_step(state, event, mode, puppet, grabbed).0 == DragState::<P>::Idle,
{
}

/// Grabbing empty space does nothing, in any mode.
pub proof fn law_empty_space_grabs_nothing<P>(pos: P, mode: EditMode, puppet: PuppetId)
    ensures
        drag_step(DragState::<P>::Idle, DragEvent::Grab(pos), mode, puppet, None) == (
            DragState::<P>::Idle,
            seq![DragEffect::<P>::Nothing],
        ),
{
}

/// What the pointer did this frame, already in the machine's units. Each
/// position is `None` when the pointer did not report it or it could not be
/// converted.
#[derive(Debug, Clone, Copy, PartialEq)]
pub struct FramePointer<P> {
    /// A click: a press and release that never became a drag.
    pub clicked: Option<P>,
    /// The primary button is held in a drag.
    pub dragging: bool,
    /// Where the button went down, or else where the pointer interacts now.
    pub grab_at: Option<P>,
    /// Where the pointer is now, or else where it hovers.
    pub move_to: Option<P>,
}

/// The events one frame of pointer input feeds the machine, in order.
///
/// A click is a tap: grab, then release. While dragging, the grab is tested
/// where the button went **down** (by the time a press counts as a drag the
/// hand has drifted off what it aimed at) and the move follows where the
/// hand is **now**; a hand that pauses mid-gesture still holds the joint.
/// With the button up, a gesture still open is released.
pub open spec fn frame_events_spec<P>(pointer: FramePointer<P>, idle: bool) -> Seq<DragEvent<P>> {
    match pointer.clicked {
        Some(at) => seq![DragEvent::Grab(at), DragEvent::Release],
        None => if pointer.dragging {
            let grab: Seq<DragEvent<P>> = match pointer.grab_at {
                Some(at) => if idle {
                    seq![DragEvent::Grab(at)]
                } else {
                    seq![]
                },
                None => seq![],
            };
            let moved: Seq<DragEvent<P>> = match pointer.move_to {
                Some(at) => if idle {
                    seq![]
                } else {
                    seq![DragEvent::MoveTo(at)]
                },
                None => seq![],
            };
            grab + moved
        } else if idle {
            seq![]
        } else {
            seq![DragEvent::Release]
        },
    }
}

/// The events for this frame, given whether the machine was idle when the
/// frame began.
pub fn frame_events<P: Copy>(pointer: FramePointer<P>, idle: bool) -> (events: Vec<DragEvent<P>>)
    ensures
        events@ == frame_events_spec(pointer, idle),
{
    let mut events: Vec<DragEvent<P>> = Vec::new();
    match pointer.clicked {
        Some(at) => {
            events.push(DragEvent::Grab(at));
            events.push(DragEvent::Release);
        },
        None => {
            if pointer.dragging {
                if idle {
                    if let Some(at) = pointer.grab_at {
                        events.push(DragEvent::Grab(at));
                    }
                }
                if !idle {
                    if let Some(at) = pointer.move_to {
                        events.push(DragEvent::MoveTo(at));
                    }
                }
            } else if !idle {
                events.push(DragEvent::Release);
            }
        },
    }
    assert(events@ =~= frame_events_spec(pointer, idle));
    events
}

/// Whether a frame's events leave the machine idle when fed to it in order
/// from `state`, each grab finding `grabbed`.
pub open spec fn ends_idle<P>(
    state: DragState<P>,
    events: Seq<DragEvent<P>>,
    mode: EditMode,
    puppet: PuppetId,
    grabbed: Option<(JointId, P)>,
) -> bool
    decreases events.len(),
{
    if events.len() == 0 {
        state is Idle
    } else {
        ends_idle(
            drag_step(state, events[0], mode, puppet, grabbed).0,
            events.drop_first(),
            mode,
            puppet,
            grabbed,
        )
    }
}

/// A frame with the button up always leaves the machine at rest, whatever
/// it was doing: a click is a whole gesture, and a lost release is made up
/// the first frame the button is seen up.
pub proof fn law_a_released_button_leaves_nothing_held<P>(
    pointer: FramePointer<P>,
    state: DragState<P>,
    mode: EditMode,
    puppet: PuppetId,
    grabbed: Option<(JointId, P)>,
)
    requires
        !pointer.dragging || pointer.clicked is Some,
    ensures
        ends_idle(state, frame_events_spec(pointer, state is Idle), mode, puppet, grabbed),
{
    let events = frame_events_spec(pointer, state is Idle);
    reveal_with_fuel(ends_idle, 3);
    if let Some(at) = pointer.clicked {
        let s1 = drag_step(state, DragEvent::Grab(at), mode, puppet, grabbed).0;
        assert(events.drop_first() =~= seq![DragEvent::<P>::Release]);
        assert(events.drop_first().drop_first() =~= Seq::<DragEvent<P>>::empty());
        assert(drag_step(s1, DragEvent::Release, mode, puppet, grabbed).0 is Idle);
    } else if !(state is Idle) {
        assert(events.drop_first() =~= Seq::<DragEvent<P>>::empty());
    }
}

} // verus!
verus! {

/// The effects of feeding `events` to the machine in order from `state`,
/// one list per event, with `modes[i]` the mode current at event `i` and
/// every grab finding `grabbed`.
pub open spec fn run_effects<P>(
    state: DragState<P>,
    events: Seq<DragEvent<P>>,
    modes: Seq<EditMode>,
    puppet: PuppetId,
    grabbed: Option<(JointId, P)>,
) -> Seq<Seq<DragEffect<P>>>
    decreases events.len(),
{
    if events.len() == 0 {
        seq![]
    } else {
        let (next, effects) = drag_step(state, events[0], modes[0], puppet, grabbed);
        seq![effects] + run_effects(next, events.drop_first(), modes.drop_first(), puppet, grabbed)
    }
}

/// One gesture: a grab, a move to each of `path` in turn, and a release.
pub open spec fn gesture<P>(at: P, path: Seq<P>) -> Seq<DragEvent<P>> {
    seq![DragEvent::Grab(at)] + path.map_values(|q: P| DragEvent::MoveTo(q)) + seq![
        DragEvent::Release,
    ]
}

/// What a move to `q` does in a gesture begun in mode `m` on `joint`, resting
/// at `from` when it was grabbed.
pub open spec fn move_effects<P>(puppet: PuppetId, joint: JointId, from: P, m: EditMode, q: P) -> Seq<
    DragEffect<P>,
> {
    if m == EditMode::Rig {
        seq![DragEffect::Command(MoveJointRest { puppet, joint, from, to: q })]
    } else {
        seq![DragEffect::SetTarget { puppet, joint, pos: q }]
    }
}

/// What the release does in a gesture begun in mode `m`.
pub open spec fn release_effects<P>(puppet: PuppetId, joint: JointId, m: EditMode) -> Seq<DragEffect<P>> {
    if m == EditMode::Live {
        seq![DragEffect::ClearTarget { puppet, joint }]
    } else {
        seq![DragEffect::EndGesture]
    }
}

/// The moves and release of a gesture in hand, whatever the modes are now.
proof fn lemma_gesture_tail<P>(
    joint: JointId,
    from: P,
    m: EditMode,
    path: Seq<P>,
    modes: Seq<EditMode>,
    puppet: PuppetId,
    grabbed: Option<(JointId, P)>,
)
    requires
        modes.len() == path.len() + 1,
    ensures
        ({
            let effs = run_effects(
                DragState::Dragging { puppet, joint, from, mode: m },
                path.map_values(|q: P| DragEvent::MoveTo(q)) + seq![DragEvent::Release],
                modes,
                puppet,
                grabbed,
            );
            &&& effs.len() == path.len() + 1
            &&& forall|i: int|
                0 <= i < path.len() ==> effs[i] == move_effects(puppet, joint, from, m, path[i])
            &&& effs[path.len() as int] == release_effects::<P>(puppet, joint, m)
        }),
    decreases path.len(),
{
    let state = DragState::Dragging { puppet, joint, from, mode: m };
    let events = path.map_values(|q: P| DragEvent::MoveTo(q)) + seq![DragEvent::<P>::Release];
    if path.len() == 0 {
        assert(events =~= seq![DragEvent::<P>::Release]);
        assert(events.drop_first() =~= Seq::<DragEvent<P>>::empty());
        let next = drag_step(state, events[0], modes[0], puppet, grabbed).0;
        assert(run_effects(next, events.drop_first(), modes.drop_first(), puppet, grabbed)
            =~= Seq::<Seq<DragEffect<P>>>::empty());
    } else {
        let rest = path.drop_first();
        lemma_gesture_tail(joint, from, m, rest, modes.drop_first(), puppet, grabbed);
        assert(events[0] == DragEvent::MoveTo(path[0]));
        assert(events.drop_first() =~= rest.map_values(|q: P| DragEvent::MoveTo(q)) + seq![
            DragEvent::<P>::Release,
        ]);
        let effs = run_effects(state, events, modes, puppet, grabbed);
        let tail = run_effects(state, events.drop_first(), modes.drop_first(), puppet, grabbed);
        assert(drag_step(state, events[0], modes[0], puppet, grabbed).0 == state);
        assert(effs == seq![move_effects(puppet, joint, from, m, path[0])] + tail);
        assert forall|i: int| 0 <= i < path.len() implies effs[i] == move_effects(
            puppet,
            joint,
            from,
            m,
            path[i],
        ) by {
            if i > 0 {
                assert(effs[i] == tail[i - 1]);
                assert(rest[i - 1] == path[i]);
            }
        }
        assert(effs[path.len() as int] == tail[rest.len() as int]);
    }
}

/// The effects of a whole gesture on a joint that was grabbed: selecting it
/// (and, outside Rig, aiming its target), then one list per move as the
/// grab-time mode has it, then the release.
proof fn lemma_gesture<P>(
    at: P,
    path: Seq<P>,
    modes: Seq<EditMode>,
    puppet: PuppetId,
    joint: JointId,
    rest: P,
)
    requires
        modes.len() == path.len() + 2,
    ensures
        ({
            let effs = run_effects(
                DragState::Idle,
                gesture(at, path),
                modes,
                puppet,
                Some((joint, rest)),
            );
            &&& effs.len() == path.len() + 2
            &&& effs[0] == drag_step(
                DragState::<P>::Idle,
                DragEvent::Grab(at),
                modes[0],
                puppet,
                Some((joint, rest)),
            ).1
            &&& forall|i: int|
                0 <= i < path.len() ==> effs[i + 1] == move_effects(
                    puppet,
                    joint,
                    rest,
                    modes[0],
                    path[i],
                )
            &&& effs[path.len() + 1int] == release_effects::<P>(puppet, joint, modes[0])
        }),
{
    let events = gesture(at, path);
    let grabbed = Some((joint, rest));
    assert(events[0] == DragEvent::Grab(at));
    assert(events.drop_first() =~= path.map_values(|q: P| DragEvent::MoveTo(q)) + seq![
        DragEvent::<P>::Release,
    ]);
    lemma_gesture_tail(joint, rest, modes[0], path, modes.drop_first(), puppet, grabbed);
    let next = drag_step(DragState::<P>::Idle, events[0], modes[0], puppet, grabbed).0;
    assert(next == DragState::Dragging { puppet, joint, from: rest, mode: modes[0] });
    let effs = run_effects(DragState::<P>::Idle, events, modes, puppet, grabbed);
    let tail = run_effects(next, events.drop_first(), modes.drop_first(), puppet, grabbed);
    assert(effs == seq![drag_step(DragState::<P>::Idle, events[0], modes[0], puppet, grabbed).1]
        + tail);
    assert forall|i: int| 0 <= i < path.len() implies effs[i + 1] == move_effects(
        puppet,
        joint,
        rest,
        modes[0],
        path[i],
    ) by {
        assert(effs[i + 1] == tail[i]);
    }
    assert(effs[path.len() + 1int] == tail[path.len() as int]);
}

/// **A live drag leaves the document alone.** A gesture begun in Live on a
/// joint, whatever modes come after the grab, never yields a command: every
/// move aims the joint's target at the pointer, and the release lets the
/// target go.
pub proof fn law_a_live_gesture_never_writes<P>(
    at: P,
    path: Seq<P>,
    modes: Seq<EditMode>,
    puppet: PuppetId,
    joint: JointId,
    rest: P,
)
    requires
        modes.len() == path.len() + 2,
        modes[0] == EditMode::Live,
    ensures
        ({
            let effs = run_effects(
                DragState::Idle,
                gesture(at, path),
                modes,
                puppet,
                Some((joint, rest)),
            );
            &&& effs.len() == path.len() + 2
            &&& forall|i: int, k: int|
                0 <= i < effs.len() && 0 <= k < effs[i].len() ==> !(#[trigger] effs[i][k] is Command)
            &&& forall|i: int|
                0 <= i < path.len() ==> effs[i + 1] == seq![
                    DragEffect::SetTarget { puppet, joint, pos: path[i] },
                ]
            &&& effs[path.len() + 1int] == seq![DragEffect::<P>::ClearTarget { puppet, joint }]
        }),
{
    lemma_gesture(at, path, modes, puppet, joint, rest);
    let effs = run_effects(DragState::Idle, gesture(at, path), modes, puppet, Some((joint, rest)));
    assert forall|i: int, k: int|
        0 <= i < effs.len() && 0 <= k < effs[i].len() implies !(#[trigger] effs[i][k] is Command) by {
        if 1 <= i <= path.len() {
            assert(effs[i] == move_effects(puppet, joint, rest, modes[0], path[i - 1]));
        }
    }
}

/// **A rig drag is one edit from one place.** A gesture begun in Rig on a
/// joint, whatever modes come after the grab, turns each move into exactly
/// one command moving the joint's rest from where it rested at the grab to
/// the pointer, and the release seals the gesture.
pub proof fn law_a_rig_gesture_moves_from_its_grab<P>(
    at: P,
    path: Seq<P>,
    modes: Seq<EditMode>,
    puppet: PuppetId,
    joint: JointId,
    rest: P,
)
    requires
        modes.len() == path.len() + 2,
        modes[0] == EditMode::Rig,
    ensures
        ({
            let effs = run_effects(
                DragState::Idle,
                gesture(at, path),
                modes,
                puppet,
                Some((joint, rest)),
            );
            &&& effs.len() == path.len() + 2
            &&& effs[0] == seq![DragEffect::<P>::Select { puppet, joint }]
            &&& forall|i: int|
                0 <= i < path.len() ==> effs[i + 1] == seq![
                    DragEffect::Command(MoveJointRest { puppet, joint, from: rest, to: path[i] }),
                ]
            &&& effs[path.len() + 1int] == seq![DragEffect::<P>::EndGesture]
        }),
{
    lemma_gesture(at, path, modes, puppet, joint, rest);
}

} // verus!
verus! {

/// **What each event does to a gesture**, for every state it can meet:
/// - a grab from rest on a joint begins a gesture in the current mode and
///   selects the joint; outside Rig it also aims the joint's target at the
///   pointer, and in Rig it writes nothing;
/// - a move while dragging, in a gesture begun in Rig, is exactly one
///   command moving the joint's rest from where it rested at the grab to the
///   pointer; in a gesture begun in Edit or Live it is exactly one target at
///   the pointer — the drag pulls the puppet, whatever the mode is now;
/// - a release ends the gesture: a Live gesture lets the target go, any
///   other seals the undo step.
pub proof fn law_what_each_event_does<P>(
    puppet: PuppetId,
    joint: JointId,
    rest: P,
    begun: EditMode,
    now: EditMode,
    q: P,
    other: PuppetId,
    grabbed: Option<(JointId, P)>,
)
    ensures
        ({
            let grab = drag_step(DragState::Idle, DragEvent::Grab(q), now, puppet, Some((joint, rest)));
            let held = DragState::Dragging { puppet, joint, from: rest, mode: begun };
            let moved = drag_step(held, DragEvent::MoveTo(q), now, other, grabbed);
            let released = drag_step(held, DragEvent::<P>::Release, now, other, grabbed);
            &&& grab.0 == DragState::Dragging { puppet, joint, from: rest, mode: now }
            &&& now == EditMode::Rig ==> grab.1 == seq![DragEffect::<P>::Select { puppet, joint }]
            &&& now != EditMode::Rig ==> grab.1 == seq![
                DragEffect::<P>::Select { puppet, joint },
                DragEffect::SetTarget { puppet, joint, pos: q },
            ]
            &&& moved.0 == held
            &&& begun == EditMode::Rig ==> moved.1 == seq![
                DragEffect::Command(MoveJointRest { puppet, joint, from: rest, to: q }),
            ]
            &&& begun != EditMode::Rig ==> moved.1 == seq![
                DragEffect::SetTarget { puppet, joint, pos: q },
            ]
            &&& released.0 == DragState::<P>::Idle
            &&& begun == EditMode::Live ==> released.1 == seq![
                DragEffect::<P>::ClearTarget { puppet, joint },
            ]
            &&& begun != EditMode::Live ==> released.1 == seq![DragEffect::<P>::EndGesture]
        }),
{
}

/// **No document write outside Rig, ever.** Whatever state the machine is
/// in, an event in a gesture begun outside Rig, or a grab, yields no
/// command.
pub proof fn law_no_command_outside_a_rig_gesture<P>(
    state: DragState<P>,
    event: DragEvent<P>,
    now: EditMode,
    puppet: PuppetId,
    grabbed: Option<(JointId, P)>,
    k: int,
)
    requires
        (!(state matches DragState::Dragging { mode, .. } && mode == EditMode::Rig) || event is Grab),
        0 <= k < drag_step(state, event, now, puppet, grabbed).1.len(),
    ensures
        (!(drag_step(state, event, now, puppet, grabbed).1[k] is Command)),
{
}

/// **What a frame of pointer input feeds the machine.** A click is a grab
/// where it landed and then a release. While the button is held, an idle
/// machine gets one grab where the button went down and nothing else, and a
/// busy one gets one move to where the hand is now, never a grab. With the
/// button up, a busy machine gets one release and an idle one nothing.
pub proof fn law_what_a_frame_feeds_the_machine<P>(pointer: FramePointer<P>, idle: bool)
    ensures
        ({
            let e = frame_events_spec(pointer, idle);
            &&& pointer.clicked matches Some(at) ==> e == seq![
                DragEvent::Grab(at),
                DragEvent::<P>::Release,
            ]
            &&& (pointer.clicked is None && pointer.dragging && idle) ==> e == (match pointer.grab_at {
                Some(at) => seq![DragEvent::Grab(at)],
                None => Seq::<DragEvent<P>>::empty(),
            })
            &&& (pointer.clicked is None && pointer.dragging && !idle) ==> e == (match pointer.move_to {
                Some(at) => seq![DragEvent::MoveTo(at)],
                None => Seq::<DragEvent<P>>::empty(),
            })
            &&& (pointer.clicked is None && !pointer.dragging && !idle) ==> e == seq![
                DragEvent::<P>::Release,
            ]
            &&& (pointer.clicked is None && !pointer.dragging && idle) ==> e.len() == 0
        }),
{
    let e = frame_events_spec(pointer, idle);
    if pointer.clicked is None && pointer.dragging {
        if idle {
            assert(e =~= (match pointer.grab_at {
                Some(at) => seq![DragEvent::Grab(at)],
                None => Seq::<DragEvent<P>>::empty(),
            }));
        } else {
            assert(e =~= (match pointer.move_to {
                Some(at) => seq![DragEvent::MoveTo(at)],
                None => Seq::<DragEvent<P>>::empty(),
            }));
        }
    }
}

} // verus!
