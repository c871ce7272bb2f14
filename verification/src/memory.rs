//! The history of published texts.
//!
//! The history is an ordered, append-only sequence of texts. Reading and
//! writing the file behind it is the caller's business; what to make of a
//! failed read and how a text enters the sequence is decided here.

use vstd::prelude::*;

verus! {

/// The texts that a stored history holds, oldest first.
pub open spec fn texts(memory: Seq<String>) -> Seq<Seq<char>> {
    memory.map_values(|text: String| text@)
}

/// The history's rules. It has no state of its own: the sequence
/// belongs to whoever owns the history.
pub struct MemoryStore;

impl MemoryStore {
    /// The history to start from, given what reading the store returned.
    /// A failed read is absorbed: it counts as no history at all.
    pub fn load_memory<E>(read: Result<Vec<String>, E>) -> (memory: Vec<String>)
        ensures
            texts(memory@) == match read {
                Ok(stored) => texts(stored@),
                Err(_) => Seq::<Seq<char>>::empty(),
            },
    {
        match read {
            Ok(stored) => stored,
            Err(_) => Vec::new(),
        }
    }

    /// Appends `text` to the history. What was there stays, in order,
    /// and `text` comes last. The text is in the history from here on,
    /// whether or not the caller then manages to write the history out.
    pub fn add_to_memory(memory: &mut Vec<String>, text: &str)
        ensures
            texts(final(memory)@) == texts(old(memory)@).push(text@),
    {
        memory.push(text.to_owned());
    }
}

} // verus!
