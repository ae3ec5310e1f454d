//! The registry of live cells: a `legion` world in which each cell is an entity
//! that carries the identity it was given when it was placed.

use crate::cell::{Direction, GameCell};
use legion::prelude::{IntoQuery, Read, Universe, World, Write};
use vstd::prelude::*;

verus! {

/// A placed cell together with its identity.
#[derive(Clone, Copy, PartialEq, Eq, Structural, Debug)]
pub struct Entry {
    pub id: u64,
    pub cell: GameCell,
}

impl Entry {
    /// Moves the entry's cell one unit in the direction.
    pub fn step(&mut self, direction: Direction)
        requires
            old(self).cell.can_shift(direction.dx(), direction.dy()),
        ensures
            final(self).id == old(self).id,
            final(self).cell == old(self).cell.shifted(direction.dx(), direction.dy()),
    {
        self.cell.step(direction);
    }
}

/// No identity occurs twice.
pub open spec fn ids_distinct(cells: Seq<Entry>) -> bool {
    forall|i: int, j: int|
        0 <= i < cells.len() && 0 <= j < cells.len() && i != j ==> cells[i].id != cells[j].id
}

/// Whether the two sequences hold the same entries, each as often, in
/// whatever order.
pub open spec fn same_entries(a: Seq<Entry>, b: Seq<Entry>) -> bool {
    a.to_multiset() == b.to_multiset()
}

/// Sequences with the same entries are as long as each other, every entry of
/// one is an entry of the other, and where the identities of one are distinct
/// so are those of the other.
pub proof fn lemma_same_entries(a: Seq<Entry>, b: Seq<Entry>)
    requires
        same_entries(a, b),
    ensures
        a.len() == b.len(),
        forall|k: int| 0 <= k < a.len() ==> b.contains(#[trigger] a[k]),
        forall|k: int| 0 <= k < b.len() ==> a.contains(#[trigger] b[k]),
        forall|id: u64| holds_id(a, id) == holds_id(b, id),
        ids_distinct(b) ==> ids_distinct(a),
{
    a.to_multiset_ensures();
    b.to_multiset_ensures();
    assert forall|k: int| 0 <= k < a.len() implies b.contains(#[trigger] a[k]) by {
        assert(a.contains(a[k]));
        assert(a.to_multiset().count(a[k]) > 0);
        assert(b.to_multiset().count(a[k]) > 0);
    }
    assert forall|k: int| 0 <= k < b.len() implies a.contains(#[trigger] b[k]) by {
        assert(b.contains(b[k]));
        assert(b.to_multiset().count(b[k]) > 0);
        assert(a.to_multiset().count(b[k]) > 0);
    }
    assert forall|id: u64| holds_id(a, id) == holds_id(b, id) by {
        if holds_id(a, id) {
            let i = choose|i: int| 0 <= i < a.len() && a[i].id == id;
            assert(b.contains(a[i]));
            let j = choose|j: int| 0 <= j < b.len() && b[j] == a[i];
            assert(b[j].id == id);
        }
        if holds_id(b, id) {
            let i = choose|i: int| 0 <= i < b.len() && b[i].id == id;
            assert(a.contains(b[i]));
            let j = choose|j: int| 0 <= j < a.len() && a[j] == b[i];
            assert(a[j].id == id);
        }
    }
    if ids_distinct(b) {
        assert(b.no_duplicates());
        b.lemma_multiset_has_no_duplicates();
        a.lemma_multiset_has_no_duplicates_conv();
        assert forall|i: int, j: int|
            0 <= i < a.len() && 0 <= j < a.len() && i != j implies a[i].id != a[j].id by {
            assert(b.contains(a[i]));
            assert(b.contains(a[j]));
            let p = choose|p: int| 0 <= p < b.len() && b[p] == a[i];
            let q = choose|q: int| 0 <= q < b.len() && b[q] == a[j];
            assert(a[i] != a[j]);
        }
    }
}

/// Whether some entry carries the identity.
pub open spec fn holds_id(cells: Seq<Entry>, id: u64) -> bool {
    exists|i: int| 0 <= i < cells.len() && cells[i].id == id
}

/// Whether every cell can move one unit in the direction.
pub open spec fn can_translate(cells: Seq<Entry>, direction: Direction) -> bool {
    forall|i: int|
        0 <= i < cells.len() ==> (#[trigger] cells[i]).cell.can_shift(
            direction.dx(),
            direction.dy(),
        )
}

/// Every cell moved one unit in the direction, identities and order kept.
pub open spec fn translated(cells: Seq<Entry>, direction: Direction) -> Seq<Entry> {
    Seq::new(
        cells.len(),
        |i: int|
            Entry { id: cells[i].id, cell: cells[i].cell.shifted(direction.dx(), direction.dy()) },
    )
}

/// Whether `after` is `before` one unit further in the direction: the same
/// identity and kind, the coordinates changed by the direction's unit vector.
pub open spec fn is_moved(after: Entry, before: Entry, direction: Direction) -> bool {
    &&& after.id == before.id
    &&& after.cell.kind == before.cell.kind
    &&& after.cell.x == before.cell.x + direction.dx()
    &&& after.cell.y == before.cell.y + direction.dy()
}

/// Whether `after` is some entry of `before`, one unit further in the
/// direction.
pub open spec fn is_moved_from(after: Entry, before: Seq<Entry>, direction: Direction) -> bool {
    exists|i: int| 0 <= i < before.len() && is_moved(after, #[trigger] before[i], direction)
}

/// Whether `i` is the first index whose entry satisfies `wanted`.
pub open spec fn is_first_match(
    cells: Seq<Entry>,
    wanted: spec_fn(Entry) -> bool,
    i: int,
) -> bool {
    &&& 0 <= i < cells.len()
    &&& wanted(cells[i])
    &&& forall|j: int| 0 <= j < i ==> !wanted(#[trigger] cells[j])
}

/// The first index whose entry satisfies `wanted`, if there is one.
pub open spec fn first_match(cells: Seq<Entry>, wanted: spec_fn(Entry) -> bool) -> Option<int> {
    if exists|i: int| is_first_match(cells, wanted, i) {
        Some(choose|i: int| is_first_match(cells, wanted, i))
    } else {
        None
    }
}

/// A first match is the only one, so `first_match` names it.
pub proof fn lemma_first_match_found(cells: Seq<Entry>, wanted: spec_fn(Entry) -> bool, i: int)
    requires
        is_first_match(cells, wanted, i),
    ensures
        first_match(cells, wanted) == Some(i),
{
    let k = choose|k: int| is_first_match(cells, wanted, k);
    if k < i {
        assert(!wanted(cells[k]));
    }
    if i < k {
        assert(!wanted(cells[i]));
    }
}

/// Where no entry matches, `first_match` finds none.
pub proof fn lemma_first_match_none(cells: Seq<Entry>, wanted: spec_fn(Entry) -> bool)
    requires
        forall|j: int| 0 <= j < cells.len() ==> !wanted(#[trigger] cells[j]),
    ensures
        first_match(cells, wanted).is_none(),
{
}

/// What `first_match` returns is a first match, or nothing matches.
pub proof fn lemma_first_match_is_first(cells: Seq<Entry>, wanted: spec_fn(Entry) -> bool)
    ensures
        match first_match(cells, wanted) {
            Some(i) => is_first_match(cells, wanted, i),
            None => forall|j: int| 0 <= j < cells.len() ==> !wanted(#[trigger] cells[j]),
        },
{
    if first_match(cells, wanted).is_none() {
        assert forall|j: int| 0 <= j < cells.len() implies !wanted(#[trigger] cells[j]) by {
            if wanted(cells[j]) {
                lemma_some_match_has_first(cells, wanted, j);
            }
        }
    }
}

/// Below any match lies a first one.
proof fn lemma_some_match_has_first(cells: Seq<Entry>, wanted: spec_fn(Entry) -> bool, j: int)
    requires
        0 <= j < cells.len(),
        wanted(cells[j]),
    ensures
        exists|i: int| is_first_match(cells, wanted, i),
    decreases j,
{
    if forall|k: int| 0 <= k < j ==> !wanted(#[trigger] cells[k]) {
        assert(is_first_match(cells, wanted, j));
    } else {
        let k = choose|k: int| 0 <= k < j && wanted(#[trigger] cells[k]);
        lemma_some_match_has_first(cells, wanted, k);
    }
}

/// `legion::prelude::World`, carried as an opaque value: what it holds is
/// known only through `world_entries`.
#[verifier::external_type_specification]
#[verifier::external_body]
pub struct ExWorld(legion::prelude::World);

/// The entries of a world, in the order in which a query walks them.
pub uninterp spec fn world_entries(world: World) -> Seq<Entry>;

/// `Universe::create_world` on a new universe: the world holds no entity, so
/// a query walks nothing.
#[verifier::external_body]
fn empty_world() -> (world: World)
    ensures
        world_entries(world) == Seq::<Entry>::empty(),
{
    Universe::new().create_world()
}

/// `Query::iter`: hands out the entries in the order of the walk.
#[verifier::external_body]
fn world_read(world: &World) -> (entries: Vec<Entry>)
    ensures
        entries@ == world_entries(*world),
{
    Read::<Entry>::query().iter(world).map(|entry| *entry).collect()
}

/// `World::insert` with one entity: afterwards the world holds the entries of
/// before and the new one. Where in the walk the new entry stands is left
/// open, and so is the order of the others.
#[verifier::external_body]
fn world_insert(world: &mut World, entry: Entry)
    ensures
        same_entries(world_entries(*final(world)), world_entries(*old(world)).push(entry)),
{
    world.insert((), vec![(entry,)]);
}

/// `Query::par_for_each_mut`: every entry is stepped once in the direction,
/// in place, so the order of the walk stays.
#[verifier::external_body]
fn world_translate(world: &mut World, direction: Direction)
    requires
        can_translate(world_entries(*old(world)), direction),
    ensures
        world_entries(*final(world)) == translated(world_entries(*old(world)), direction),
{
    Write::<Entry>::query().par_for_each_mut(world, |mut entry| entry.step(direction));
}

/// `Query::iter_entities` and `World::delete`: deletes the entity that the walk
/// reaches at `index`. Afterwards the world holds the other entries; their
/// order is left open, since the world fills the gap with another entity.
#[verifier::external_body]
fn world_delete_at(world: &mut World, index: usize) -> (deleted: bool)
    requires
        index < world_entries(*old(world)).len(),
    ensures
        deleted,
        same_entries(
            world_entries(*final(world)),
            world_entries(*old(world)).remove(index as int),
        ),
{
    let found = Read::<Entry>::query().iter_entities(world).nth(index).map(|(entity, _)| entity);
    found.map_or(false, |entity| world.delete(entity))
}

/// All placed cells. Their order is that of a walk through the world: it
/// stays while cells only move, and may change when a cell is placed or
/// removed.
pub struct Registry {
    world: World,
    next_id: u64,
}

impl View for Registry {
    type V = Seq<Entry>;

    closed spec fn view(&self) -> Seq<Entry> {
        world_entries(self.world)
    }
}

impl Registry {
    /// The identity that the next placed cell receives.
    pub closed spec fn spec_next_id(&self) -> u64 {
        self.next_id
    }

    /// Identities are distinct and stay below the next one.
    pub open spec fn wf(&self) -> bool {
        &&& ids_distinct(self@)
        &&& forall|i: int| 0 <= i < self@.len() ==> (#[trigger] self@[i]).id < self.spec_next_id()
    }

    pub fn new() -> (r: Registry)
        ensures
            r@ == Seq::<Entry>::empty(),
            r.spec_next_id() == 0,
            r.wf(),
    {
        Registry { world: empty_world(), next_id: 0 }
    }

    pub fn len(&self) -> (r: usize)
        ensures
            r == self@.len(),
    {
        world_read(&self.world).len()
    }

    /// The entries in registry order.
    pub fn entries(&self) -> (r: Vec<Entry>)
        ensures
            r@ == self@,
    {
        world_read(&self.world)
    }

    /// Places a cell and returns its identity, or returns `None` and changes
    /// nothing once the identities are used up.
    pub fn insert(&mut self, cell: GameCell) -> (r: Option<u64>)
        requires
            old(self).wf(),
        ensures
            final(self).wf(),
            old(self).spec_next_id() < u64::MAX ==> r == Some(old(self).spec_next_id())
                && same_entries(
                final(self)@,
                old(self)@.push((Entry { id: old(self).spec_next_id(), cell })),
            ) && final(self).spec_next_id() == old(self).spec_next_id() + 1,
            old(self).spec_next_id() == u64::MAX ==> r.is_none() && final(self)@ == old(self)@
                && final(self).spec_next_id() == old(self).spec_next_id(),
    {
        if self.next_id == u64::MAX {
            return None;
        }
        let id: u64 = self.next_id;
        world_insert(&mut self.world, Entry { id, cell });
        self.next_id = id + 1;
        proof {
            let grown = old(self)@.push(Entry { id, cell });
            lemma_same_entries(self@, grown);
            assert forall|i: int| 0 <= i < self@.len() implies (#[trigger] self@[i]).id
                < self.spec_next_id() by {
                assert(grown.contains(self@[i]));
            }
        }
        Some(id)
    }

    /// Whether every cell can move one unit in the direction.
    pub fn can_translate(&self, direction: Direction) -> (r: bool)
        ensures
            r == can_translate(self@, direction),
    {
        let entries: Vec<Entry> = world_read(&self.world);
        let n: usize = entries.len();
        let mut i: usize = 0;
        while i < n
            invariant
                n == entries@.len(),
                entries@ == self@,
                0 <= i <= n,
                forall|j: int|
                    0 <= j < i ==> (#[trigger] entries@[j]).cell.can_shift(
                        direction.dx(),
                        direction.dy(),
                    ),
            decreases n - i,
        {
            let cell: GameCell = entries[i].cell;
            let fits: bool = match direction {
                Direction::Up => cell.y > i32::MIN,
                Direction::Down => cell.y < i32::MAX,
                Direction::Left => cell.x > i32::MIN,
                Direction::Right => cell.x < i32::MAX,
            };
            if !fits {
                return false;
            }
            i = i + 1;
        }
        true
    }

    /// Moves every cell one unit in the direction.
    pub fn translate(&mut self, direction: Direction)
        requires
            old(self).wf(),
            can_translate(old(self)@, direction),
        ensures
            final(self).wf(),
            final(self)@ == translated(old(self)@, direction),
            final(self).spec_next_id() == old(self).spec_next_id(),
    {
        world_translate(&mut self.world, direction);
    }

    /// Removes the entry with the identity, if there is one, and says whether
    /// there was. The other entries stay, in an order that may have changed.
    pub fn delete(&mut self, id: u64) -> (r: bool)
        requires
            old(self).wf(),
        ensures
            final(self).wf(),
            final(self).spec_next_id() == old(self).spec_next_id(),
            r == holds_id(old(self)@, id),
            !holds_id(final(self)@, id),
            r ==> exists|i: int|
                0 <= i < old(self)@.len() && old(self)@[i].id == id && same_entries(
                    final(self)@,
                    old(self)@.remove(i),
                ),
            !r ==> final(self)@ == old(self)@,
    {
        let entries: Vec<Entry> = world_read(&self.world);
        let n: usize = entries.len();
        let mut i: usize = 0;
        while i < n
            invariant
                n == entries@.len(),
                entries@ == self@,
                *self == *old(self),
                old(self).wf(),
                0 <= i <= n,
                forall|j: int| 0 <= j < i ==> entries@[j].id != id,
            decreases n - i,
        {
            if entries[i].id == id {
                world_delete_at(&mut self.world, i);
                proof {
                    let rest = old(self)@.remove(i as int);
                    lemma_remove_keeps_distinct(old(self)@, i as int);
                    lemma_same_entries(self@, rest);
                    assert(old(self)@[i as int].id == id);
                    assert forall|k: int| 0 <= k < self@.len() implies (#[trigger] self@[k]).id
                        < self.spec_next_id() by {
                        assert(rest.contains(self@[k]));
                    }
                }
                return true;
            }
            i = i + 1;
        }
        false
    }
}

/// Removing an entry keeps the identities distinct and takes the removed
/// identity out of the sequence; the other entries stay.
pub proof fn lemma_remove_keeps_distinct(cells: Seq<Entry>, i: int)
    requires
        ids_distinct(cells),
        0 <= i < cells.len(),
    ensures
        ids_distinct(cells.remove(i)),
        !holds_id(cells.remove(i), cells[i].id),
        cells.remove(i).len() == cells.len() - 1,
        forall|k: int| 0 <= k < i ==> cells.remove(i)[k] == cells[k],
        forall|k: int| i <= k < cells.len() - 1 ==> cells.remove(i)[k] == cells[k + 1],
{
    let rest = cells.remove(i);
    assert forall|a: int, b: int|
        0 <= a < rest.len() && 0 <= b < rest.len() && a != b implies rest[a].id != rest[b].id by {
        let a0 = if a < i { a } else { a + 1 };
        let b0 = if b < i { b } else { b + 1 };
        assert(rest[a] == cells[a0]);
        assert(rest[b] == cells[b0]);
    }
    assert forall|k: int| 0 <= k < rest.len() implies rest[k].id != cells[i].id by {
        let k0 = if k < i { k } else { k + 1 };
        assert(rest[k] == cells[k0]);
    }
}

} // verus!
