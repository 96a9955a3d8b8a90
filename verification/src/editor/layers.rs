//! Moving a layer through the paint order, and what a layer edit does to the
//! selection.
//!
//! The stack is back to front. A move swaps a layer with its neighbour, so
//! "move layer up" is one step that "move layer down" takes back.

use vstd::prelude::*;
use crate::editor::state::Selection;
use crate::ids::LayerId;

verus! {

/// Where `x` first occurs in `s`.
pub open spec fn first_index(s: Seq<LayerId>, x: LayerId) -> Option<int>
    decreases s.len(),
{
    if s.len() == 0 {
        None
    } else if s[0] == x {
        Some(0)
    } else {
        match first_index(s.drop_first(), x) {
            Some(i) => Some(i + 1),
            None => None,
        }
    }
}

/// The stack after moving `layer` by `direction` places: its first
/// occurrence swapped with the layer it lands on. `None` when the layer is
/// not in the stack or the move would leave it.
pub open spec fn moved_order(order: Seq<LayerId>, layer: LayerId, direction: int) -> Option<
    Seq<LayerId>,
> {
    match first_index(order, layer) {
        None => None,
        Some(i) => {
            let t = i + direction;
            if t < 0 || t >= order.len() {
                None
            } else {
                Some(order.update(i, order[t]).update(t, order[i]))
            }
        },
    }
}

proof fn lemma_first_index(s: Seq<LayerId>, x: LayerId)
    ensures
        first_index(s, x) matches Some(i) ==> 0 <= i < s.len() && s[i] == x && forall|j: int|
            0 <= j < i ==> s[j] != x,
        first_index(s, x) is None ==> !s.contains(x),
    decreases s.len(),
{
    if s.len() > 0 {
        lemma_first_index(s.drop_first(), x);
        if s[0] != x {
            if let Some(i) = first_index(s.drop_first(), x) {
                assert forall|j: int| 0 <= j < i + 1 implies s[j] != x by {
                    if j > 0 {
                        assert(s[j] == s.drop_first()[j - 1]);
                    }
                }
            } else {
                assert forall|k: int| 0 <= k < s.len() implies s[k] != x by {
                    if k > 0 {
                        assert(s[k] == s.drop_first()[k - 1]);
                    }
                }
            }
        }
    }
}

/// An index that holds `x`, with no earlier one that does, is the first.
proof fn lemma_is_first_index(s: Seq<LayerId>, x: LayerId, i: int)
    requires
        0 <= i < s.len(),
        s[i] == x,
        forall|j: int| 0 <= j < i ==> s[j] != x,
    ensures
        first_index(s, x) == Some(i),
    decreases s.len(),
{
    if i > 0 {
        assert forall|j: int| 0 <= j < i - 1 implies s.drop_first()[j] != x by {
            assert(s.drop_first()[j] == s[j + 1]);
        }
        lemma_is_first_index(s.drop_first(), x, i - 1);
    }
}

/// Move `layer` by `direction` places through the stack.
pub fn move_layer(order: &Vec<LayerId>, layer: LayerId, direction: i32) -> (r: Option<Vec<LayerId>>)
    requires
        order@.len() <= i32::MAX,
    ensures
        match r {
            Some(v) => moved_order(order@, layer, direction as int) == Some(v@),
            None => moved_order(order@, layer, direction as int) is None,
        },
{
    proof {
        lemma_first_index(order@, layer);
    }
    let mut index: usize = 0;
    while index < order.len()
        invariant
            index <= order.len(),
            forall|j: int| 0 <= j < index ==> order@[j] != layer,
        ensures
            index <= order.len(),
            forall|j: int| 0 <= j < index ==> order@[j] != layer,
            index < order.len() ==> order@[index as int] == layer,
        decreases order.len() - index,
    {
        if order[index] == layer {
            break;
        }
        index = index + 1;
    }
    if index == order.len() {
        assert(!order@.contains(layer));
        return None;
    }
    proof {
        lemma_is_first_index(order@, layer, index as int);
    }
    let target: i64 = index as i64 + direction as i64;
    if target < 0 || target >= order.len() as i64 {
        return None;
    }
    let t = target as usize;
    let mut to = order.clone();
    let a = order[index];
    let b = order[t];
    to.set(index, b);
    to.set(t, a);
    Some(to)
}

/// Moving a layer and then moving it back by the same number of places puts
/// the stack back as it was, for a stack that holds the layer once.
pub proof fn law_moving_back_undoes_a_move(order: Seq<LayerId>, layer: LayerId, direction: int)
    requires
        forall|i: int, j: int| 0 <= i < j < order.len() ==> order[i] != order[j],
        moved_order(order, layer, direction) is Some,
    ensures
        moved_order(moved_order(order, layer, direction)->0, layer, -direction) == Some(order),
{
    lemma_first_index(order, layer);
    let i = first_index(order, layer)->0;
    let t = i + direction;
    let moved = order.update(i, order[t]).update(t, order[i]);
    assert(moved[t] == layer);
    assert forall|j: int| 0 <= j < t implies moved[j] != layer by {
        if j == i {
            assert(moved[j] == order[t]);
        } else {
            assert(moved[j] == order[j]);
        }
    }
    lemma_is_first_index(moved, layer, t);
    assert(moved.update(t, moved[i]).update(i, moved[t]) =~= order);
}

/// The selection after a layer is deleted: a selection of that layer would
/// leave the inspector describing a ghost, so it is cleared.
pub fn selection_after_delete(selection: Selection, layer: LayerId) -> (s: Selection)
    ensures
        s == (if selection == Selection::Layer(layer) {
            Selection::Empty
        } else {
            selection
        }),
{
    match selection {
        Selection::Layer(l) => if l == layer {
            Selection::Empty
        } else {
            selection
        },
        _ => selection,
    }
}

/// **A move swaps the layer with the one it lands on, and nothing else.**
/// When a move succeeds, the stack keeps its length, the layer stands
/// `direction` places from where it first stood, the layer that stood there
/// takes its old place, and every other place is as it was. A move fails
/// exactly when the layer is not in the stack or would leave it.
pub proof fn law_a_move_is_a_swap(order: Seq<LayerId>, layer: LayerId, direction: int, i: int)
    requires
        0 <= i < order.len(),
        order[i] == layer,
        forall|j: int| 0 <= j < i ==> order[j] != layer,
    ensures
        (0 <= i + direction < order.len()) <==> moved_order(order, layer, direction) is Some,
        (0 <= i + direction < order.len()) ==> ({
            let v = moved_order(order, layer, direction)->0;
            &&& v.len() == order.len()
            &&& v[i + direction] == layer
            &&& v[i] == order[i + direction]
            &&& forall|k: int| 0 <= k < order.len() && k != i && k != i + direction ==> v[k] == order[k]
        }),
{
    lemma_is_first_index(order, layer, i);
}

/// A layer that is not in the stack cannot be moved.
pub proof fn law_a_stranger_does_not_move(order: Seq<LayerId>, layer: LayerId, direction: int)
    requires
        !order.contains(layer),
    ensures
        moved_order(order, layer, direction) is None,
{
    lemma_first_index(order, layer);
    if let Some(i) = first_index(order, layer) {
        assert(order[i] == layer);
    }
}

} // verus!
