//! A slot: one text value that each write replaces as a whole.

use vstd::prelude::*;

verus! {

/// The value of one slot. There is no history: a write replaces the text, a
/// read copies it.
pub struct StateSlot {
    text: String,
}

impl View for StateSlot {
    type V = Seq<char>;

    closed spec fn view(&self) -> Seq<char> {
        self.text@
    }
}

impl StateSlot {
    /// An empty slot.
    pub fn new() -> (slot: Self)
        ensures
            slot@ == Seq::<char>::empty(),
    {
        StateSlot { text: String::new() }
    }

    /// A copy of the text that the slot holds.
    pub fn get(&self) -> (text: String)
        ensures
            text@ == self@,
    {
        self.text.clone()
    }

    /// Replaces the text that the slot holds.
    pub fn set(&mut self, text: String)
        ensures
            final(self)@ == text@,
    {
        self.text = text;
    }
}

} // verus!
