//! Anchoring of an oscillation: the height it swings around is captured the
//! first time an entity is animated and is never captured again.

use vstd::prelude::*;

verus! {

/// The anchor an oscillation swings around, given what was captured so far
/// and the entity's position now: an earlier capture wins.
pub open spec fn settled_anchor<T>(captured: Option<T>, current: T) -> T {
    match captured {
        Some(anchor) => anchor,
        None => current,
    }
}

/// What is recorded after one capture at each of `positions`, in turn.
pub open spec fn recorded_after<T>(captured: Option<T>, positions: Seq<T>) -> Option<T>
    decreases positions.len(),
{
    if positions.len() == 0 {
        captured
    } else {
        recorded_after(Some(settled_anchor(captured, positions[0])), positions.drop_first())
    }
}

/// Returns the anchor to oscillate around and records it. Where none was
/// recorded yet, `current` becomes the anchor; otherwise the recorded one is
/// returned and `current` is ignored.
pub fn capture_anchor<T: Copy>(captured: &mut Option<T>, current: T) -> (anchor: T)
    ensures
        anchor == settled_anchor(*old(captured), current),
        *final(captured) == Some(anchor),
{
    *captured.get_or_insert(current)
}

/// First write wins: however often an entity is animated and wherever it
/// stands at each later tick, what is recorded is the anchor that the first
/// tick settled on. For an entity without an anchor that is its position at
/// the first tick.
pub proof fn lemma_anchor_first_write_wins<T>(captured: Option<T>, positions: Seq<T>)
    requires
        positions.len() > 0,
    ensures
        recorded_after(captured, positions) == Some(settled_anchor(captured, positions[0])),
        captured is None ==> recorded_after(captured, positions) == Some(positions[0]),
    decreases positions.len(),
{
    let first = Some(settled_anchor(captured, positions[0]));
    let rest = positions.drop_first();
    if rest.len() > 0 {
        lemma_anchor_first_write_wins(first, rest);
    } else {
        assert(recorded_after(first, rest) == first);
    }
}

} // verus!
