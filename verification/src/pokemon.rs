//! A recorded set, and the messages a database refresh sends.

use vstd::prelude::*;

verus! {

/// The set recorded for a Pokémon, as stored in a generation's table.
#[derive(Clone, Debug, PartialEq, Eq)]
pub struct Pokemon {
    pub id: usize,
    pub pokemon: String,
    pub main_format: String,
    pub set_format: String,
    pub set_name: String,
    pub item: String,
    pub ability: String,
    pub nature: String,
    pub evs: String,
    pub ivs: String,
    pub moves: String,
    pub tera_type: String,
    pub complete: bool,
}

impl Pokemon {
    /// Marks the set done if it was not, and not done if it was; returns
    /// whether it is now done.
    pub fn toggle_complete(&mut self) -> (done: bool)
        ensures
            done == !old(self).complete,
            *final(self) == (Pokemon { complete: done, ..*old(self) }),
    {
        self.complete = !self.complete;
        self.complete
    }
}

/// Toggling a set twice leaves it as it was.
pub proof fn lemma_toggle_twice(p: Pokemon)
    ensures
        (Pokemon { complete: !(Pokemon { complete: !p.complete, ..p }).complete, ..p }) == p,
{
}

/// What a database refresh reports while it runs.
#[derive(Copy, Clone, Debug, PartialEq, Eq, Structural)]
pub enum InitializationMessage {
    /// The number of Pokémon that will be looked up.
    Total(usize),
    /// One more Pokémon was handled.
    Progress,
    /// The refresh is over.
    End,
}

} // verus!
