//! One session of the game and the step that advances it by one command.

use crate::cell::{CellAccess, Color, Direction, GameCell};
use crate::events::GameEvents;
use crate::geometry::{Player, Viewport};
use crate::inventory::Inventory;
use crate::narration::{blocked_message, blocked_text, pickup_message, pickup_text};
use crate::registry::{
    can_translate, first_match, ids_distinct, is_first_match, lemma_first_match_found,
    lemma_first_match_none, same_entries, translated, Entry, Registry,
};
use vstd::prelude::*;

verus! {

/// What the input source can ask for.
#[derive(Clone, Copy, PartialEq, Eq, Structural, Debug)]
pub enum Command {
    Up,
    Down,
    Left,
    Right,
    Quit,
    Other,
}

impl Command {
    /// The direction that the command asks to move in, if it is a move.
    pub open spec fn spec_direction(self) -> Option<Direction> {
        match self {
            Command::Up => Some(Direction::Up),
            Command::Down => Some(Direction::Down),
            Command::Left => Some(Direction::Left),
            Command::Right => Some(Direction::Right),
            Command::Quit | Command::Other => None,
        }
    }

    pub fn direction(self) -> (r: Option<Direction>)
        ensures
            r == self.spec_direction(),
    {
        match self {
            Command::Up => Some(Direction::Up),
            Command::Down => Some(Direction::Down),
            Command::Left => Some(Direction::Left),
            Command::Right => Some(Direction::Right),
            Command::Quit | Command::Other => None,
        }
    }
}

/// Whether the session goes on after a step.
#[derive(Clone, Copy, PartialEq, Eq, Structural, Debug)]
pub enum StepOutcome {
    Continue,
    Quit,
}

/// The mathematical content of a session.
pub struct SessionState {
    pub cells: Seq<Entry>,
    pub player: Player,
    pub items: Seq<GameCell>,
    pub events: Seq<(Seq<char>, Color)>,
    pub viewport: Viewport,
}

/// The position that is tested for a blocking cell when the player asks to
/// move: one row up or down for `Up` and `Down`, one column to the right for
/// `Left` and one to the left for `Right`.
pub open spec fn probe(player: Player, direction: Direction) -> (int, int) {
    match direction {
        Direction::Up => (player.x as int, player.y - 1),
        Direction::Down => (player.x as int, player.y + 1),
        Direction::Left => (player.x + 1, player.y as int),
        Direction::Right => (player.x - 1, player.y as int),
    }
}

/// The cells that block a player who probes `at`.
pub open spec fn blocking(at: (int, int)) -> spec_fn(Entry) -> bool {
    |e: Entry| e.cell.kind.spec_access() == CellAccess::Impassable && e.cell.spec_at(at.0, at.1)
}

/// The cells that the player collects: takeable, shown by the viewport, and
/// under the player.
pub open spec fn collectable(player: Player, viewport: Viewport) -> spec_fn(Entry) -> bool {
    |e: Entry|
        e.cell.kind.spec_access() == CellAccess::Takeable && viewport.spec_shows(
            e.cell.x as int,
            e.cell.y as int,
        ) && e.cell.spec_at(player.x as int, player.y as int)
}

impl SessionState {
    /// Identities are distinct and the viewport has room for its margins.
    pub open spec fn wf(self) -> bool {
        ids_distinct(self.cells) && self.viewport.wf()
    }

    /// The index of the first cell that blocks a move in the direction.
    pub open spec fn blocker(self, direction: Direction) -> Option<int> {
        first_match(self.cells, blocking(probe(self.player, direction)))
    }

    /// The index of the first cell that the player would collect.
    pub open spec fn candidate(self) -> Option<int> {
        first_match(self.cells, collectable(self.player, self.viewport))
    }

    /// Whether a move in the direction can be resolved: either a cell blocks
    /// it, or every cell has room to move the other way.
    pub open spec fn movable(self, direction: Direction) -> bool {
        self.blocker(direction).is_none() ==> can_translate(
            self.cells,
            direction.spec_opposite(),
        )
    }

    /// Whether the command can be resolved.
    pub open spec fn accepts(self, command: Command) -> bool {
        match command.spec_direction() {
            Some(direction) => self.movable(direction),
            None => true,
        }
    }

    /// The state after a move is resolved: a blocked move posts one blue event
    /// that names the first blocking cell; a free one moves every cell one
    /// unit against the direction.
    pub open spec fn resolve(self, direction: Direction) -> SessionState {
        match self.blocker(direction) {
            Some(i) => SessionState {
                events: self.events.push(
                    (
                        blocked_text(
                            self.cells[i].cell.kind.spec_name(),
                            self.viewport.spec_pad_width(),
                        ),
                        Color::Blue,
                    ),
                ),
                ..self
            },
            None => SessionState {
                cells: translated(self.cells, direction.spec_opposite()),
                ..self
            },
        }
    }

    /// Whether `after` is a state after the pickup scan: the first collectable
    /// cell has left the registry for the inventory and one green event names
    /// it; the other cells are all there, in whatever order. Where no cell is
    /// collectable nothing has changed.
    pub open spec fn takes_to(self, after: SessionState) -> bool {
        match self.candidate() {
            Some(i) => {
                &&& same_entries(after.cells, self.cells.remove(i))
                &&& after.items == self.items.push(self.cells[i].cell)
                &&& after.events == self.events.push(
                    (
                        pickup_text(
                            self.cells[i].cell.kind.spec_name(),
                            self.viewport.spec_pad_width(),
                        ),
                        Color::Green,
                    ),
                )
                &&& after.player == self.player
                &&& after.viewport == self.viewport
            },
            None => after == self,
        }
    }

    /// Whether `after` is a state after one command: quitting changes nothing;
    /// a move is resolved and the pickup scan follows; any other input goes
    /// straight to the pickup scan.
    pub open spec fn steps_to(self, command: Command, after: SessionState) -> bool {
        match command {
            Command::Quit => after == self,
            Command::Other => self.takes_to(after),
            Command::Up => self.resolve(Direction::Up).takes_to(after),
            Command::Down => self.resolve(Direction::Down).takes_to(after),
            Command::Left => self.resolve(Direction::Left).takes_to(after),
            Command::Right => self.resolve(Direction::Right).takes_to(after),
        }
    }
}

/// The whole state of a running game.
pub struct Session {
    pub registry: Registry,
    pub player: Player,
    pub inventory: Inventory,
    pub events: GameEvents,
    pub viewport: Viewport,
}

impl View for Session {
    type V = SessionState;

    open spec fn view(&self) -> SessionState {
        SessionState {
            cells: self.registry@,
            player: self.player,
            items: self.inventory@,
            events: self.events@,
            viewport: self.viewport,
        }
    }
}

/// The first entry that blocks a player who probes `(tx, ty)`.
fn find_blocker(entries: &Vec<Entry>, tx: i64, ty: i64) -> (r: Option<usize>)
    ensures
        match r {
            Some(i) => first_match(entries@, blocking((tx as int, ty as int))) == Some(i as int),
            None => first_match(entries@, blocking((tx as int, ty as int))).is_none(),
        },
{
    let ghost wanted = blocking((tx as int, ty as int));
    let n: usize = entries.len();
    let mut i: usize = 0;
    while i < n
        invariant
            n == entries@.len(),
            0 <= i <= n,
            wanted == blocking((tx as int, ty as int)),
            forall|j: int| 0 <= j < i ==> !wanted(#[trigger] entries@[j]),
        decreases n - i,
    {
        let cell: GameCell = entries[i].cell;
        if cell.access() == CellAccess::Impassable && cell.at(tx, ty) {
            proof {
                assert(is_first_match(entries@, wanted, i as int));
                lemma_first_match_found(entries@, wanted, i as int);
            }
            return Some(i);
        }
        i = i + 1;
    }
    proof {
        lemma_first_match_none(entries@, wanted);
    }
    None
}

/// The first entry that the player collects.
fn find_candidate(entries: &Vec<Entry>, player: &Player, viewport: &Viewport) -> (r: Option<
    usize,
>)
    ensures
        match r {
            Some(i) => first_match(entries@, collectable(*player, *viewport)) == Some(i as int),
            None => first_match(entries@, collectable(*player, *viewport)).is_none(),
        },
{
    let ghost wanted = collectable(*player, *viewport);
    let n: usize = entries.len();
    let mut i: usize = 0;
    while i < n
        invariant
            n == entries@.len(),
            0 <= i <= n,
            wanted == collectable(*player, *viewport),
            forall|j: int| 0 <= j < i ==> !wanted(#[trigger] entries@[j]),
        decreases n - i,
    {
        let cell: GameCell = entries[i].cell;
        if cell.access() == CellAccess::Takeable && viewport.shows(cell.x, cell.y) && cell.at(
            player.x as i64,
            player.y as i64,
        ) {
            proof {
                assert(is_first_match(entries@, wanted, i as int));
                lemma_first_match_found(entries@, wanted, i as int);
            }
            return Some(i);
        }
        i = i + 1;
    }
    proof {
        lemma_first_match_none(entries@, wanted);
    }
    None
}

impl Session {
    /// The registry's identities are distinct and the viewport has room for
    /// its margins.
    pub open spec fn wf(&self) -> bool {
        self.registry.wf() && self.viewport.wf()
    }

    /// A session at its start: nothing collected, nothing narrated.
    pub fn new(viewport: Viewport, player: Player, registry: Registry) -> (r: Session)
        requires
            viewport.wf(),
            registry.wf(),
        ensures
            r.wf(),
            r@ == (SessionState {
                cells: registry@,
                player,
                items: Seq::<GameCell>::empty(),
                events: Seq::<(Seq<char>, Color)>::empty(),
                viewport,
            }),
            r.registry == registry,
    {
        Session {
            registry,
            player,
            inventory: Inventory::new(),
            events: GameEvents::new(),
            viewport,
        }
    }

    /// The index of the first cell that blocks a move in the direction.
    pub fn blocker(&self, direction: Direction) -> (r: Option<usize>)
        ensures
            match r {
                Some(i) => self@.blocker(direction) == Some(i as int),
                None => self@.blocker(direction).is_none(),
            },
    {
        let entries: Vec<Entry> = self.registry.entries();
        self.blocker_among(&entries, direction)
    }

    /// The index of the first of the entries that blocks a move in the
    /// direction.
    fn blocker_among(&self, entries: &Vec<Entry>, direction: Direction) -> (r: Option<usize>)
        ensures
            match r {
                Some(i) => first_match(entries@, blocking(probe(self.player, direction))) == Some(
                    i as int,
                ),
                None => first_match(entries@, blocking(probe(self.player, direction))).is_none(),
            },
    {
        let px: i64 = self.player.x as i64;
        let py: i64 = self.player.y as i64;
        match direction {
            Direction::Up => find_blocker(entries, px, py - 1),
            Direction::Down => find_blocker(entries, px, py + 1),
            Direction::Left => find_blocker(entries, px + 1, py),
            Direction::Right => find_blocker(entries, px - 1, py),
        }
    }

    /// Whether a move in the direction can be resolved.
    pub fn can_resolve(&self, direction: Direction) -> (r: bool)
        ensures
            r == self@.movable(direction),
    {
        match self.blocker(direction) {
            Some(_) => true,
            None => self.registry.can_translate(direction.opposite()),
        }
    }

    /// Whether the command can be resolved.
    pub fn accepts(&self, command: Command) -> (r: bool)
        ensures
            r == self@.accepts(command),
    {
        match command.direction() {
            Some(direction) => self.can_resolve(direction),
            None => true,
        }
    }

    /// Resolves a move: narrates the first blocking cell, or moves the world
    /// one unit against the direction. Says whether the world moved.
    pub fn resolve_move(&mut self, direction: Direction) -> (moved: bool)
        requires
            old(self).wf(),
            old(self)@.movable(direction),
        ensures
            final(self).wf(),
            final(self)@ == old(self)@.resolve(direction),
            moved == old(self)@.blocker(direction).is_none(),
            final(self).registry.spec_next_id() == old(self).registry.spec_next_id(),
    {
        let entries: Vec<Entry> = self.registry.entries();
        match self.blocker_among(&entries, direction) {
            Some(i) => {
                let cell: GameCell = entries[i].cell;
                let text: String = blocked_message(cell.name(), self.viewport.pad_width());
                self.events.post_event(text, Color::Blue);
                false
            },
            None => {
                self.registry.translate(direction.opposite());
                true
            },
        }
    }

    /// The pickup scan: collects the first takeable cell under the player that
    /// the viewport shows, and returns its identity.
    pub fn take_items(&mut self) -> (taken: Option<u64>)
        requires
            old(self).wf(),
        ensures
            final(self).wf(),
            old(self)@.takes_to(final(self)@),
            match taken {
                Some(id) => old(self)@.candidate().is_some() && id == old(self)@.cells[old(
                    self,
                )@.candidate().unwrap()].id,
                None => old(self)@.candidate().is_none(),
            },
            final(self).registry.spec_next_id() == old(self).registry.spec_next_id(),
    {
        let entries: Vec<Entry> = self.registry.entries();
        match find_candidate(&entries, &self.player, &self.viewport) {
            Some(i) => {
                let entry: Entry = entries[i];
                let text: String = pickup_message(entry.cell.name(), self.viewport.pad_width());
                self.events.post_event(text, Color::Green);
                self.inventory.take(entry.cell);
                let ghost before: Seq<Entry> = self.registry@;
                self.registry.delete(entry.id);
                proof {
                    let k = choose|k: int|
                        0 <= k < before.len() && before[k].id == entry.id && same_entries(
                            self.registry@,
                            before.remove(k),
                        );
                    assert(before[i as int].id == entry.id);
                    assert(k == i);
                }
                Some(entry.id)
            },
            None => None,
        }
    }

    /// Advances the session by one command.
    pub fn step(&mut self, command: Command) -> (outcome: StepOutcome)
        requires
            old(self).wf(),
            old(self)@.accepts(command),
        ensures
            final(self).wf(),
            old(self)@.steps_to(command, final(self)@),
            (outcome == StepOutcome::Quit) == (command == Command::Quit),
            final(self).registry.spec_next_id() == old(self).registry.spec_next_id(),
    {
        match command {
            Command::Quit => {
                return StepOutcome::Quit;
            },
            Command::Other => {},
            Command::Up => {
                self.resolve_move(Direction::Up);
            },
            Command::Down => {
                self.resolve_move(Direction::Down);
            },
            Command::Left => {
                self.resolve_move(Direction::Left);
            },
            Command::Right => {
                self.resolve_move(Direction::Right);
            },
        }
        self.take_items();
        StepOutcome::Continue
    }
}

} // verus!
