//! Quests: identity, an optional required item and a completion flag.

use vstd::prelude::*;

verus! {

/// A quest a non-player character can hand out. A quest with no required item
/// is trivially completable; one with a required item completes only when the
/// player carries an item with that id.
#[derive(Debug, Clone, PartialEq, Eq)]
pub struct Quest {
    /// Unique identifier of the quest.
    pub id: u32,
    /// Title of the quest.
    pub name: String,
    /// Longer description.
    pub description: String,
    /// The id of the item the quest asks for, if any.
    pub objet_requis_id: Option<u32>,
    /// Whether the quest has been completed.
    pub completed: bool,
}

impl Quest {
    /// Builds a new, not yet completed quest. Pass `None` when no item is
    /// required.
    pub fn new(id: u32, name: String, description: String, objet_requis_id: Option<u32>) -> (q:
        Quest)
        ensures
            q.id == id,
            q.name == name,
            q.description == description,
            q.objet_requis_id == objet_requis_id,
            !q.completed,
    {
        Quest { id, name, description, objet_requis_id, completed: false }
    }

    /// Marks the quest as completed; nothing else changes.
    pub fn complete(&mut self)
        ensures
            *final(self) == (Quest { completed: true, ..*old(self) }),
    {
        self.completed = true;
    }

    /// Marks the quest as not completed; nothing else changes.
    pub fn reset(&mut self)
        ensures
            *final(self) == (Quest { completed: false, ..*old(self) }),
    {
        self.completed = false;
    }

    /// Whether the quest has been completed.
    pub fn is_completed(&self) -> (r: bool)
        ensures
            r == self.completed,
    {
        self.completed
    }

    /// Whether the quest asks for an item.
    pub fn requires_object(&self) -> (r: bool)
        ensures
            r == self.objet_requis_id is Some,
    {
        self.objet_requis_id.is_some()
    }

    /// The id of the required item, or `None` when the quest asks for none.
    pub fn required_object_id(&self) -> (r: Option<u32>)
        ensures
            r == self.objet_requis_id,
    {
        self.objet_requis_id
    }

    /// An exact copy of this quest.
    pub fn duplicate(&self) -> (q: Quest)
        ensures
            q == *self,
    {
        Quest {
            id: self.id,
            name: self.name.clone(),
            description: self.description.clone(),
            objet_requis_id: self.objet_requis_id,
            completed: self.completed,
        }
    }
}

} // verus!
