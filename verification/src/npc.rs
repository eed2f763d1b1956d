//! Non-player characters: dialogue, attached quests and the catalog
//! cross-referencing that resolves quest ids at load time.

use vstd::prelude::*;
use crate::quest::Quest;

verus! {

/// A non-player character as the catalog describes it: quests referenced by id.
#[derive(Debug, Clone)]
pub struct NpcRaw {
    pub id: u32,
    pub name: String,
    pub description: String,
    pub dialogues: Vec<String>,
    pub quests: Vec<u32>,
}

/// A non-player character with its quests resolved against the quest catalog.
#[derive(Debug, Clone)]
pub struct Npc {
    pub id: u32,
    pub name: String,
    pub description: String,
    pub dialogues: Vec<String>,
    pub quests: Vec<Quest>,
}

/// The first quest of the catalog with the given id, if any.
pub open spec fn spec_find_quest(all: Seq<Quest>, qid: u32) -> Option<Quest>
    decreases all.len(),
{
    if all.len() == 0 {
        None
    } else if all[0].id == qid {
        Some(all[0])
    } else {
        spec_find_quest(all.drop_first(), qid)
    }
}

/// The quests selected by a list of ids, in the order of the ids; ids the
/// catalog does not know are silently dropped.
pub open spec fn spec_selected_quests(ids: Seq<u32>, all: Seq<Quest>) -> Seq<Quest>
    decreases ids.len(),
{
    if ids.len() == 0 {
        Seq::empty()
    } else {
        spec_selected_quests(ids.drop_last(), all) + match spec_find_quest(all, ids.last()) {
            Some(q) => seq![q],
            None => Seq::empty(),
        }
    }
}

/// What interacting with an NPC says: its first dialogue line, or a fixed
/// notice when it has nothing to say.
pub open spec fn spec_interact(n: Npc) -> Seq<char> {
    if n.dialogues@.len() == 0 {
        n.name@ + " n'a rien à dire."@
    } else {
        n.name@ + " dit : '"@ + n.dialogues@[0]@ + "'"@
    }
}

/// What asking an NPC about quests says: the name of its first quest, or a
/// fixed notice when it has none.
pub open spec fn spec_quest_info(n: Npc) -> Seq<char> {
    if n.quests@.len() == 0 {
        n.name@ + " : 'Je n'ai pas de quête pour toi.'"@
    } else {
        n.name@ + " : 'J'ai une quête : "@ + n.quests@[0].name@ + "'"@
    }
}

/// Two NPCs agree on every field; the vectors are compared element by element.
pub open spec fn npc_eq(a: Npc, b: Npc) -> bool {
    &&& a.id == b.id
    &&& a.name == b.name
    &&& a.description == b.description
    &&& a.dialogues@ == b.dialogues@
    &&& a.quests@ == b.quests@
}

/// The first quest with the given id, if any.
fn find_quest_by_id(all: &[Quest], qid: u32) -> (r: Option<&Quest>)
    ensures
        match r {
            Some(q) => spec_find_quest(all@, qid) == Some(*q),
            None => spec_find_quest(all@, qid) is None,
        },
{
    let mut i: usize = 0;
    proof {
        assert(all@.skip(0) =~= all@);
    }
    while i < all.len()
        invariant
            i <= all@.len(),
            spec_find_quest(all@, qid) == spec_find_quest(all@.skip(i as int), qid),
            forall|j: int| 0 <= j < i ==> all@[j].id != qid,
        decreases all@.len() - i,
    {
        if all[i].id == qid {
            proof {
                assert(all@.skip(i as int)[0] == all@[i as int]);
            }
            return Some(&all[i]);
        }
        proof {
            assert(all@.skip(i as int).drop_first() =~= all@.skip(i as int + 1));
        }
        i = i + 1;
    }
    proof {
        assert(all@.skip(i as int).len() == 0);
    }
    None
}

impl Npc {
    /// The display name.
    pub fn name(&self) -> (r: &str)
        ensures
            r@ == self.name@,
    {
        self.name.as_str()
    }

    /// The description.
    pub fn description(&self) -> (r: &str)
        ensures
            r@ == self.description@,
    {
        self.description.as_str()
    }

    /// Greets the player: the first dialogue line, or a fixed notice when the
    /// NPC has nothing to say.
    pub fn interact(&self) -> (r: String)
        ensures
            r@ == spec_interact(*self),
    {
        if self.dialogues.len() == 0 {
            let mut r = self.name.clone();
            r.append(" n'a rien à dire.");
            proof {
                assert(r@ =~= spec_interact(*self));
            }
            r
        } else {
            let mut r = self.name.clone();
            r.append(" dit : '");
            r.append(self.dialogues[0].as_str());
            r.append("'");
            proof {
                assert(r@ =~= spec_interact(*self));
            }
            r
        }
    }

    /// Announces the first quest, or a fixed notice when the NPC has none.
    pub fn quest_info(&self) -> (r: String)
        ensures
            r@ == spec_quest_info(*self),
    {
        if self.quests.len() == 0 {
            let mut r = self.name.clone();
            r.append(" : 'Je n'ai pas de quête pour toi.'");
            proof {
                assert(r@ =~= spec_quest_info(*self));
            }
            r
        } else {
            let mut r = self.name.clone();
            r.append(" : 'J'ai une quête : ");
            r.append(self.quests[0].name.as_str());
            r.append("'");
            proof {
                assert(r@ =~= spec_quest_info(*self));
            }
            r
        }
    }

    /// Every quest of this NPC is already completed (trivially true when it
    /// has none).
    pub fn all_quests_completed(&self) -> (r: bool)
        ensures
            r == forall|j: int| 0 <= j < self.quests@.len() ==> self.quests@[j].completed,
    {
        let mut i: usize = 0;
        while i < self.quests.len()
            invariant
                i <= self.quests@.len(),
                forall|j: int| 0 <= j < i ==> self.quests@[j].completed,
            decreases self.quests@.len() - i,
        {
            if !self.quests[i].completed {
                return false;
            }
            i = i + 1;
        }
        true
    }

    /// Resolves a catalog entry: keeps the referenced quests that exist in the
    /// quest catalog, in the order of the references, and drops dangling ids.
    pub fn from_raw(raw: NpcRaw, all_quests: &[Quest]) -> (n: Npc)
        ensures
            n.id == raw.id,
            n.name == raw.name,
            n.description == raw.description,
            n.dialogues == raw.dialogues,
            n.quests@ == spec_selected_quests(raw.quests@, all_quests@),
    {
        let mut quests: Vec<Quest> = Vec::new();
        let mut i: usize = 0;
        while i < raw.quests.len()
            invariant
                i <= raw.quests@.len(),
                quests@ == spec_selected_quests(raw.quests@.take(i as int), all_quests@),
            decreases raw.quests@.len() - i,
        {
            match find_quest_by_id(all_quests, raw.quests[i]) {
                Some(q) => {
                    quests.push(q.duplicate());
                },
                None => {},
            }
            proof {
                assert(raw.quests@.take(i as int + 1).drop_last() =~= raw.quests@.take(i as int));
                assert(raw.quests@.take(i as int + 1).last() == raw.quests@[i as int]);
                assert(quests@ =~= spec_selected_quests(raw.quests@.take(i as int + 1), all_quests@));
            }
            i = i + 1;
        }
        proof {
            assert(raw.quests@.take(raw.quests@.len() as int) =~= raw.quests@);
        }
        Npc { id: raw.id, name: raw.name, description: raw.description, dialogues: raw.dialogues, quests }
    }

    /// An exact copy of this NPC.
    pub fn duplicate(&self) -> (n: Npc)
        ensures
            npc_eq(n, *self),
    {
        let mut dialogues: Vec<String> = Vec::new();
        let mut i: usize = 0;
        while i < self.dialogues.len()
            invariant
                i <= self.dialogues@.len(),
                dialogues@ == self.dialogues@.take(i as int),
            decreases self.dialogues@.len() - i,
        {
            dialogues.push(self.dialogues[i].clone());
            i = i + 1;
        }
        let mut quests: Vec<Quest> = Vec::new();
        let mut j: usize = 0;
        while j < self.quests.len()
            invariant
                j <= self.quests@.len(),
                quests@ == self.quests@.take(j as int),
            decreases self.quests@.len() - j,
        {
            quests.push(self.quests[j].duplicate());
            j = j + 1;
        }
        proof {
            assert(dialogues@ =~= self.dialogues@);
            assert(quests@ =~= self.quests@);
        }
        Npc {
            id: self.id,
            name: self.name.clone(),
            description: self.description.clone(),
            dialogues,
            quests,
        }
    }
}

} // verus!
