//! The feed of narrated events, oldest first.

use crate::cell::Color;
use vstd::prelude::*;

verus! {

/// One narration and the colour in which it is shown.
pub struct GameEvent {
    pub text: String,
    pub color: Color,
}

impl View for GameEvent {
    type V = (Seq<char>, Color);

    open spec fn view(&self) -> (Seq<char>, Color) {
        (self.text@, self.color)
    }
}

/// The event log. Events are only ever added, behind those already there.
pub struct GameEvents {
    log: Vec<GameEvent>,
}

impl View for GameEvents {
    type V = Seq<(Seq<char>, Color)>;

    closed spec fn view(&self) -> Seq<(Seq<char>, Color)> {
        self.log@.map_values(|e: GameEvent| e@)
    }
}

impl GameEvents {
    pub fn new() -> (r: GameEvents)
        ensures
            r@ == Seq::<(Seq<char>, Color)>::empty(),
    {
        let r = GameEvents { log: Vec::new() };
        assert(r@ =~= Seq::<(Seq<char>, Color)>::empty());
        r
    }

    pub fn len(&self) -> (r: usize)
        ensures
            r == self@.len(),
    {
        self.log.len()
    }

    /// Adds an event behind those already posted.
    pub fn post_event(&mut self, text: String, color: Color)
        ensures
            final(self)@ == old(self)@.push((text@, color)),
    {
        self.log.push(GameEvent { text, color });
        assert(self@ =~= old(self)@.push((text@, color)));
    }

    /// All events in the order in which they were posted.
    pub fn events(&self) -> (r: &Vec<GameEvent>)
        ensures
            r@.len() == self@.len(),
            forall|i: int| 0 <= i < r@.len() ==> (#[trigger] r@[i])@ == self@[i],
    {
        &self.log
    }
}

} // verus!
