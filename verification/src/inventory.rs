//! What the player has collected, in the order of collection.

use crate::cell::GameCell;
use vstd::prelude::*;

verus! {

/// The collected cells. Nothing ever leaves the inventory.
pub struct Inventory {
    items: Vec<GameCell>,
}

impl View for Inventory {
    type V = Seq<GameCell>;

    closed spec fn view(&self) -> Seq<GameCell> {
        self.items@
    }
}

/// The display names of the cells, in the same order.
pub open spec fn names_of(items: Seq<GameCell>) -> Seq<Seq<char>> {
    Seq::new(items.len(), |i: int| items[i].kind.spec_name())
}

impl Inventory {
    pub fn new() -> (r: Inventory)
        ensures
            r@ == Seq::<GameCell>::empty(),
    {
        Inventory { items: Vec::new() }
    }

    pub fn len(&self) -> (r: usize)
        ensures
            r == self@.len(),
    {
        self.items.len()
    }

    /// Adds a cell behind those already collected.
    pub fn take(&mut self, cell: GameCell)
        ensures
            final(self)@ == old(self)@.push(cell),
    {
        self.items.push(cell);
    }

    /// The collected cells in the order of collection.
    pub fn items(&self) -> (r: &Vec<GameCell>)
        ensures
            r@ == self@,
    {
        &self.items
    }

    /// The display names of the collected cells in the order of collection.
    pub fn list(&self) -> (r: Vec<String>)
        ensures
            r@.len() == self@.len(),
            forall|i: int| 0 <= i < r@.len() ==> (#[trigger] r@[i])@ == names_of(self@)[i],
    {
        let n: usize = self.items.len();
        let mut names: Vec<String> = Vec::new();
        let mut i: usize = 0;
        while i < n
            invariant
                n == self.items@.len(),
                0 <= i <= n,
                names@.len() == i,
                forall|j: int|
                    0 <= j < i ==> (#[trigger] names@[j])@ == self.items@[j].kind.spec_name(),
            decreases n - i,
        {
            names.push(String::from_str(self.items[i].name()));
            i = i + 1;
        }
        names
    }
}

} // verus!
