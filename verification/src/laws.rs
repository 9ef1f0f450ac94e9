//! The synchronizer's laws: properties that hold of every state the
//! contracts in `workspace` admit, not just of chosen inputs.

use vstd::arithmetic::div_mod::{
    lemma_add_mod_noop_right, lemma_mod_equivalence, lemma_mod_multiples_vanish,
    lemma_mod_pos_bound, lemma_small_mod,
};
use vstd::prelude::*;

use crate::workspace::{
    cycle_target, intent_command, intent_result, lemma_cycle_next_form, scroll_intent_spec,
    Direction, ScrollDelta, StateView, UserIntent,
};

verus! {

/// Idempotence: switching to the workspace already focused never changes
/// the state and never issues a switch command, in any state.
pub proof fn lemma_switch_idempotent(s: StateView, id: usize)
    requires
        id as int == s.focus,
    ensures
        intent_result(s, UserIntent::SwitchTo(id)) == s,
        intent_command(s, UserIntent::SwitchTo(id)) is None,
{
}

/// A cycle intent always moves the focus to the cycle target and never
/// changes the total, whether or not the step issues a command: when the
/// target is already focused the state is returned unchanged, and its focus
/// is then the target itself. Iterating cycle targets therefore iterates
/// the synchronizer's own step.
pub proof fn lemma_cycle_intent_moves_to_target(s: StateView, direction: Direction)
    ensures
        intent_result(s, UserIntent::CycleBy(direction)).focus == cycle_target(
            s.focus,
            s.total,
            direction,
        ),
        intent_result(s, UserIntent::CycleBy(direction)).total == s.total,
{
}

/// The focus after `k` consecutive cycles to the next workspace.
pub open spec fn iter_next(focus: int, total: int, k: nat) -> int
    decreases k,
{
    if k == 0 {
        focus
    } else {
        cycle_target(iter_next(focus, total, (k - 1) as nat), total, Direction::Next)
    }
}

/// Iterated next-cycling, in closed form: after `k` steps the focus stands
/// `k` places around the ring.
proof fn lemma_iter_next_closed_form(focus: int, total: int, k: nat)
    requires
        1 <= focus <= total,
    ensures
        iter_next(focus, total, k) == (focus - 1 + k) % total + 1,
    decreases k,
{
    if k == 0 {
        lemma_small_mod((focus - 1) as nat, total as nat);
    } else {
        lemma_iter_next_closed_form(focus, total, (k - 1) as nat);
        let v = iter_next(focus, total, (k - 1) as nat);
        lemma_mod_pos_bound(focus - 1 + (k - 1), total);
        lemma_cycle_next_form(v, total);
        lemma_add_mod_noop_right(1, focus - 1 + (k - 1), total);
    }
}

/// Cycle totality: from any valid focus, cycling to the next workspace
/// `total` times returns the focus to where it started, and the first
/// `total` stops visit each of the `total` identifiers exactly once — no
/// identifier twice, none missed.
pub proof fn lemma_cycle_totality(focus: int, total: int)
    requires
        1 <= focus <= total,
    ensures
        iter_next(focus, total, total as nat) == focus,
        forall|j: nat, k: nat|
            #![trigger iter_next(focus, total, j), iter_next(focus, total, k)]
            j < k < total ==> iter_next(focus, total, j) != iter_next(focus, total, k),
{
    assert(iter_next(focus, total, total as nat) == focus) by {
        lemma_iter_next_closed_form(focus, total, total as nat);
        lemma_mod_multiples_vanish(1, focus - 1, total);
        lemma_small_mod((focus - 1) as nat, total as nat);
    };
    assert forall|j: nat, k: nat|
        #![trigger iter_next(focus, total, j), iter_next(focus, total, k)]
        j < k < total implies iter_next(focus, total, j) != iter_next(focus, total, k) by {
        lemma_iter_next_closed_form(focus, total, j);
        lemma_iter_next_closed_form(focus, total, k);
        if iter_next(focus, total, j) == iter_next(focus, total, k) {
            lemma_mod_equivalence(focus - 1 + k, focus - 1 + j, total);
            lemma_small_mod((k - j) as nat, total as nat);
        }
    };
}

/// Cycle totality, the other half: every identifier is visited within the
/// first `total` next-cycles from any valid starting focus.
pub proof fn lemma_cycle_visits_every_workspace(focus: int, total: int, id: int)
    requires
        1 <= focus <= total,
        1 <= id <= total,
    ensures
        exists|k: nat| k < total && #[trigger] iter_next(focus, total, k) == id,
{
    let k = (id - focus + total) % total;
    lemma_mod_pos_bound(id - focus + total, total);
    lemma_iter_next_closed_form(focus, total, k as nat);
    lemma_add_mod_noop_right(focus - 1, id - focus + total, total);
    lemma_mod_multiples_vanish(1, id - 1, total);
    lemma_small_mod((id - 1) as nat, total as nat);
    assert((k as nat) < total && iter_next(focus, total, k as nat) == id);
}

/// The focus after a sequence of cycle intents, applied in order.
pub open spec fn iter_cycles(focus: int, total: int, directions: Seq<Direction>) -> int
    decreases directions.len(),
{
    if directions.len() == 0 {
        focus
    } else {
        cycle_target(iter_cycles(focus, total, directions.drop_last()), total, directions.last())
    }
}

/// With a single workspace, a cycle in either direction targets the one
/// workspace there is, so from the only valid state it changes nothing and
/// issues no switch command.
pub proof fn lemma_cycle_single_workspace(direction: Direction)
    ensures
        cycle_target(1, 1, direction) == 1,
        intent_result(StateView { total: 1, focus: 1 }, UserIntent::CycleBy(direction)) == (
        StateView { total: 1, focus: 1 }),
        intent_command(StateView { total: 1, focus: 1 }, UserIntent::CycleBy(direction)) is None,
{
    lemma_small_mod(0nat, 1nat);
    lemma_mod_multiples_vanish(2, 0, 1);
}

/// Single-workspace stability: with one workspace, any sequence of cycle
/// intents leaves the focus at one, and no step of the sequence issues a
/// switch command.
pub proof fn lemma_single_workspace_stability(directions: Seq<Direction>)
    ensures
        iter_cycles(1, 1, directions) == 1,
        forall|k: int|
            0 <= k < directions.len() ==> #[trigger] intent_command(
                StateView { total: 1, focus: 1 },
                UserIntent::CycleBy(directions[k]),
            ) is None,
    decreases directions.len(),
{
    if directions.len() > 0 {
        lemma_single_workspace_stability(directions.drop_last());
        lemma_cycle_single_workspace(directions.last());
        assert(forall|k: int|
            0 <= k < directions.len() - 1 ==> directions[k] == directions.drop_last()[k]);
    }
}

/// Scroll-source irrelevance: a delta maps to the same intent whether the
/// line-based or the pixel-based source delivered it, and an upward
/// (positive) delta always maps to a cycle to the previous workspace.
pub proof fn lemma_scroll_source_irrelevant(upward: bool)
    ensures
        scroll_intent_spec(ScrollDelta::Lines { upward }) == scroll_intent_spec(
            ScrollDelta::Pixels { upward },
        ),
        upward ==> scroll_intent_spec(ScrollDelta::Lines { upward }) == UserIntent::CycleBy(
            Direction::Previous,
        ),
        !upward ==> scroll_intent_spec(ScrollDelta::Lines { upward }) == UserIntent::CycleBy(
            Direction::Next,
        ),
{
}

} // verus!
