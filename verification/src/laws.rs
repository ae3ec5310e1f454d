//! What holds of every session, stated over the states that the session's
//! functions promise.

use crate::cell::{Color, Direction};
use crate::narration::{contains_run, lemma_sentence_holds_name};
use crate::registry::{
    can_translate, holds_id, is_moved, is_moved_from, lemma_first_match_is_first,
    lemma_first_match_none, lemma_remove_keeps_distinct, lemma_same_entries, translated,
};
use crate::session::{blocking, collectable, probe, Command, SessionState};
use vstd::prelude::*;

verus! {

/// A move that no cell blocks moves every cell one unit against the direction,
/// keeps their identities and order, and leaves the player, the inventory and
/// the event log as they were.
pub proof fn law_free_move_translates(s: SessionState, direction: Direction)
    requires
        forall|i: int|
            0 <= i < s.cells.len() ==> !blocking(probe(s.player, direction))(#[trigger] s.cells[i]),
        can_translate(s.cells, direction.spec_opposite()),
    ensures
        s.blocker(direction).is_none(),
        s.movable(direction),
        s.resolve(direction).cells == translated(s.cells, direction.spec_opposite()),
        s.resolve(direction).cells.len() == s.cells.len(),
        forall|i: int|
            0 <= i < s.cells.len() ==> is_moved(
                #[trigger] s.resolve(direction).cells[i],
                s.cells[i],
                direction.spec_opposite(),
            ),
        s.resolve(direction).player == s.player,
        s.resolve(direction).items == s.items,
        s.resolve(direction).events == s.events,
{
    lemma_first_match_none(s.cells, blocking(probe(s.player, direction)));
}

/// After a whole step with a move that no cell blocks, the player stands where
/// it stood, and every cell that is still in the registry is a cell from
/// before the step, one unit further against the direction.
pub proof fn law_survivors_are_translated(
    s: SessionState,
    command: Command,
    direction: Direction,
    t: SessionState,
)
    requires
        command.spec_direction() == Some(direction),
        forall|i: int|
            0 <= i < s.cells.len() ==> !blocking(probe(s.player, direction))(#[trigger] s.cells[i]),
        can_translate(s.cells, direction.spec_opposite()),
        s.steps_to(command, t),
    ensures
        s.accepts(command),
        t.player == s.player,
        forall|k: int|
            0 <= k < t.cells.len() ==> is_moved_from(
                #[trigger] t.cells[k],
                s.cells,
                direction.spec_opposite(),
            ),
{
    let moved = s.resolve(direction);
    assert(moved.takes_to(t));
    law_free_move_translates(s, direction);
    assert forall|k: int| 0 <= k < t.cells.len() implies is_moved_from(
        #[trigger] t.cells[k],
        s.cells,
        direction.spec_opposite(),
    ) by {
        let from: int = match moved.candidate() {
            Some(gone) => {
                lemma_first_match_is_first(
                    moved.cells,
                    collectable(moved.player, moved.viewport),
                );
                let rest = moved.cells.remove(gone);
                lemma_same_entries(t.cells, rest);
                assert(rest.contains(t.cells[k]));
                let j = choose|j: int| 0 <= j < rest.len() && rest[j] == t.cells[k];
                if j < gone {
                    j
                } else {
                    j + 1
                }
            },
            None => k,
        };
        assert(t.cells[k] == moved.cells[from]);
        assert(0 <= from < s.cells.len());
        assert(is_moved(t.cells[k], s.cells[from], direction.spec_opposite()));
    }
}

/// A move that a cell blocks leaves the registry, the player and the inventory
/// as they were, and adds exactly one event: a blue one whose text holds the
/// name of the first blocking cell, which is impassable and lies at the probed
/// position.
pub proof fn law_blocked_move_narrates(s: SessionState, direction: Direction)
    requires
        exists|i: int|
            0 <= i < s.cells.len() && blocking(probe(s.player, direction))(#[trigger] s.cells[i]),
    ensures
        s.blocker(direction).is_some(),
        s.movable(direction),
        ({
            let i = s.blocker(direction).unwrap();
            let t = s.resolve(direction);
            &&& 0 <= i < s.cells.len()
            &&& blocking(probe(s.player, direction))(s.cells[i])
            &&& t.cells == s.cells
            &&& t.player == s.player
            &&& t.items == s.items
            &&& t.events.len() == s.events.len() + 1
            &&& t.events.subrange(0, s.events.len() as int) == s.events
            &&& t.events.last().1 == Color::Blue
            &&& contains_run(t.events.last().0, s.cells[i].cell.kind.spec_name())
        }),
{
    let i = s.blocker(direction).unwrap();
    let t = s.resolve(direction);
    lemma_first_match_is_first(s.cells, blocking(probe(s.player, direction)));
    lemma_sentence_holds_name(
        "You ran into the "@,
        s.cells[i].cell.kind.spec_name(),
        s.viewport.spec_pad_width(),
    );
    assert(t.events.subrange(0, s.events.len() as int) =~= s.events);
}

/// A collected cell is in the inventory and no longer in the registry, so no
/// later scan can collect it again.
pub proof fn law_collected_cell_is_gone(s: SessionState, t: SessionState)
    requires
        s.wf(),
        s.candidate().is_some(),
        s.takes_to(t),
    ensures
        ({
            let i = s.candidate().unwrap();
            &&& 0 <= i < s.cells.len()
            &&& collectable(s.player, s.viewport)(s.cells[i])
            &&& t.items.last() == s.cells[i].cell
            &&& !holds_id(t.cells, s.cells[i].id)
            &&& t.wf()
            &&& t.candidate().is_some() ==> t.cells[t.candidate().unwrap()].id != s.cells[i].id
        }),
{
    let i = s.candidate().unwrap();
    lemma_first_match_is_first(s.cells, collectable(s.player, s.viewport));
    lemma_remove_keeps_distinct(s.cells, i);
    lemma_same_entries(t.cells, s.cells.remove(i));
    lemma_first_match_is_first(t.cells, collectable(t.player, t.viewport));
}

/// Where the collected cell was the only collectable one, a second scan at the
/// same player position finds nothing and changes nothing.
pub proof fn law_second_scan_finds_nothing(s: SessionState, t: SessionState, u: SessionState)
    requires
        s.wf(),
        s.candidate().is_some(),
        forall|j: int|
            0 <= j < s.cells.len() && j != s.candidate().unwrap() ==> !collectable(
                s.player,
                s.viewport,
            )(#[trigger] s.cells[j]),
        s.takes_to(t),
        t.takes_to(u),
    ensures
        t.candidate().is_none(),
        u == t,
{
    let i = s.candidate().unwrap();
    let rest = s.cells.remove(i);
    lemma_first_match_is_first(s.cells, collectable(s.player, s.viewport));
    lemma_remove_keeps_distinct(s.cells, i);
    lemma_same_entries(t.cells, rest);
    assert forall|k: int| 0 <= k < t.cells.len() implies !collectable(t.player, t.viewport)(
        #[trigger] t.cells[k],
    ) by {
        assert(rest.contains(t.cells[k]));
        let j = choose|j: int| 0 <= j < rest.len() && rest[j] == t.cells[k];
        let from = if j < i {
            j
        } else {
            j + 1
        };
        assert(t.cells[k] == s.cells[from]);
    }
    lemma_first_match_none(t.cells, collectable(t.player, t.viewport));
}

/// The pickup scan adds at most one cell to the inventory and at most one
/// event, and takes at most one cell from the registry, however many cells
/// are collectable; what was in the inventory and the log stays in front.
pub proof fn law_at_most_one_pickup(s: SessionState, t: SessionState)
    requires
        s.takes_to(t),
    ensures
        s.items.len() <= t.items.len() <= s.items.len() + 1,
        s.events.len() <= t.events.len() <= s.events.len() + 1,
        s.cells.len() - 1 <= t.cells.len() <= s.cells.len(),
        t.items.len() - s.items.len() == t.events.len() - s.events.len(),
        t.items.len() - s.items.len() == s.cells.len() - t.cells.len(),
        t.items.subrange(0, s.items.len() as int) == s.items,
        t.events.subrange(0, s.events.len() as int) == s.events,
        t.player == s.player,
        t.viewport == s.viewport,
{
    lemma_first_match_is_first(s.cells, collectable(s.player, s.viewport));
    if s.candidate().is_some() {
        lemma_same_entries(t.cells, s.cells.remove(s.candidate().unwrap()));
    }
    assert(t.items.subrange(0, s.items.len() as int) =~= s.items);
    assert(t.events.subrange(0, s.events.len() as int) =~= s.events);
}

/// A step adds at most one cell to the inventory. It adds at most one event
/// for the move and one for the pickup; a step whose move no cell blocks adds
/// at most one event in all. The player never moves, and what was in the
/// inventory and the log stays in front.
pub proof fn law_step_is_bounded(s: SessionState, command: Command, t: SessionState)
    requires
        s.steps_to(command, t),
    ensures
        s.items.len() <= t.items.len() <= s.items.len() + 1,
        s.events.len() <= t.events.len() <= s.events.len() + 2,
        (match command.spec_direction() {
            Some(direction) => s.blocker(direction).is_none(),
            None => true,
        }) ==> t.events.len() <= s.events.len() + 1,
        s.cells.len() - 1 <= t.cells.len() <= s.cells.len(),
        t.items.subrange(0, s.items.len() as int) == s.items,
        t.events.subrange(0, s.events.len() as int) == s.events,
        t.player == s.player,
        t.viewport == s.viewport,
{
    match command.spec_direction() {
        Some(direction) => {
            let moved = s.resolve(direction);
            assert(moved.takes_to(t));
            law_at_most_one_pickup(moved, t);
            assert(moved.events.subrange(0, s.events.len() as int) =~= s.events);
            assert(t.events.subrange(0, s.events.len() as int) =~= t.events.subrange(
                0,
                moved.events.len() as int,
            ).subrange(0, s.events.len() as int));
        },
        None => {
            if command == Command::Other {
                law_at_most_one_pickup(s, t);
            }
            assert(t.items.subrange(0, s.items.len() as int) =~= s.items);
            assert(t.events.subrange(0, s.events.len() as int) =~= s.events);
        },
    }
}

/// Quitting changes nothing: the registry, the inventory and the event log
/// are what they were.
pub proof fn law_quit_changes_nothing(s: SessionState, t: SessionState)
    requires
        s.steps_to(Command::Quit, t),
    ensures
        s.accepts(Command::Quit),
        t == s,
{
}

} // verus!
