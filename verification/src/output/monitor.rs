//! Choosing which display the show goes to.
//!
//! A pure function over a described list of monitors, because the bug it
//! replaces was "the second monitor enumerated": enumeration order put the
//! TV first, and the output opened fullscreen on the operator's own screen,
//! minutes before a show.

use vstd::prelude::*;

verus! {

/// What the choice reads of one attached display.
#[derive(Debug, Clone)]
pub struct MonitorDesc {
    pub name: String,
    pub is_primary: bool,
}

/// Whether monitor `i` is the first that is not primary.
pub open spec fn is_first_secondary(monitors: Seq<MonitorDesc>, i: int) -> bool {
    &&& 0 <= i < monitors.len()
    &&& !monitors[i].is_primary
    &&& forall|k: int| 0 <= k < i ==> (#[trigger] monitors[k]).is_primary
}

/// Which monitor (by index) the output window should open on.
///
/// 1. An explicit override wins; one past the end lands on the last monitor
///    so the show still lands somewhere visible.
/// 2. Otherwise the first monitor that is **not** primary — chosen by what
///    it is, never by where enumeration put it.
/// 3. One monitor only (or none): nothing. A fullscreen output on the only
///    screen would bury the editor.
pub open spec fn chosen_index(monitors: Seq<MonitorDesc>, override_index: Option<usize>) -> Option<int> {
    match override_index {
        Some(i) => if i < monitors.len() {
            Some(i as int)
        } else if monitors.len() > 0 {
            Some(monitors.len() - 1)
        } else {
            None
        },
        None => if monitors.len() < 2 {
            None
        } else if exists|i: int| is_first_secondary(monitors, i) {
            Some(choose|i: int| is_first_secondary(monitors, i))
        } else {
            None
        },
    }
}

/// Which monitor the output window should open on; see [`chosen_index`].
pub fn choose_output_monitor(monitors: &[MonitorDesc], override_index: Option<usize>) -> (r: Option<
    &MonitorDesc,
>)
    ensures
        r is None <==> chosen_index(monitors@, override_index) is None,
        r matches Some(m) ==> *m == monitors@[chosen_index(monitors@, override_index)->0],
{
    if let Some(index) = override_index {
        if index < monitors.len() {
            return Some(&monitors[index]);
        }
        if monitors.len() > 0 {
            return Some(&monitors[monitors.len() - 1]);
        }
        return None;
    }
    if monitors.len() < 2 {
        return None;
    }
    let mut i: usize = 0;
    while i < monitors.len()
        invariant
            i <= monitors.len(),
            monitors.len() >= 2,
            override_index is None,
            forall|k: int| 0 <= k < i ==> (#[trigger] monitors@[k]).is_primary,
        decreases monitors.len() - i,
    {
        if !monitors[i].is_primary {
            assert(is_first_secondary(monitors@, i as int));
            assert forall|j: int| is_first_secondary(monitors@, j) implies j == i by {
                if j < i {
                } else if j > i {
                    assert(monitors@[i as int].is_primary);
                }
            }
            return Some(&monitors[i]);
        }
        i = i + 1;
    }
    None
}

/// The projector is chosen by not being primary, never by position: with
/// two or more monitors and no override, the choice is the first
/// non-primary one wherever it sits.
pub proof fn law_secondary_wins_by_role_not_position(monitors: Seq<MonitorDesc>, i: int)
    requires
        monitors.len() >= 2,
        is_first_secondary(monitors, i),
    ensures
        chosen_index(monitors, None) == Some(i),
{
    assert forall|j: int| is_first_secondary(monitors, j) implies j == i by {
        if j < i {
            assert(monitors[j].is_primary);
        } else if j > i {
            assert(monitors[i].is_primary);
        }
    }
}

/// An override always lands on an attached monitor when there is one.
pub proof fn law_an_override_always_lands(monitors: Seq<MonitorDesc>, index: usize)
    requires
        monitors.len() > 0,
    ensures
        chosen_index(monitors, Some(index)) matches Some(i) && 0 <= i < monitors.len(),
{
}

} // verus!
