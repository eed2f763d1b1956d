//! Catalog items: identity, display metadata and the four stat deltas an item
//! grants while equipped or consumed.

use vstd::prelude::*;
use crate::numfmt::{i32_signed_dec, signed_dec_str};

verus! {

/// The kind of an item, which decides whether it can be equipped (and into
/// which slot) or consumed.
#[derive(Debug, Clone, Copy, PartialEq, Eq, Structural)]
pub enum ItemType {
    Consommable,
    Arme,
    Armure,
    Amulette,
    Cle,
    ObjetDeQuete,
    Autre,
}

/// A collectible object. Catalog entries are immutable; a player's inventory
/// holds independent copies.
#[derive(Debug, Clone, PartialEq, Eq)]
pub struct Item {
    pub id: u32,
    pub name: String,
    pub description: String,
    pub value: u32,
    pub item_type: ItemType,
    pub utilisable: bool,
    pub health: i32,
    pub strength: i32,
    pub defense: i32,
    pub agility: i32,
}

/// An item goes into an equipment slot exactly when it is a weapon, an armor
/// or an amulet.
pub open spec fn spec_is_equipable(t: ItemType) -> bool {
    t is Arme || t is Armure || t is Amulette
}

/// An item can be consumed exactly when it is a consumable.
pub open spec fn spec_is_consumable(t: ItemType) -> bool {
    t is Consommable
}

/// The display name of an item type.
pub open spec fn spec_type_name(t: ItemType) -> Seq<char> {
    match t {
        ItemType::Arme => "Arme"@,
        ItemType::Armure => "Armure"@,
        ItemType::Amulette => "Amulette"@,
        ItemType::Consommable => "Consommable"@,
        ItemType::Cle => "Clé"@,
        ItemType::ObjetDeQuete => "Objet de Quête"@,
        ItemType::Autre => "Autre"@,
    }
}

/// The labelled, signed stat bonuses of an item, one entry per non-zero field,
/// in the fixed order health, strength, defense, agility.
pub open spec fn spec_stats_parts(it: Item) -> Seq<Seq<char>> {
    let p1: Seq<Seq<char>> = if it.health != 0 {
        seq!["Santé: "@ + signed_dec_str(it.health as int)]
    } else {
        seq![]
    };
    let p2: Seq<Seq<char>> = if it.strength != 0 {
        seq!["Force: "@ + signed_dec_str(it.strength as int)]
    } else {
        seq![]
    };
    let p3: Seq<Seq<char>> = if it.defense != 0 {
        seq!["Défense: "@ + signed_dec_str(it.defense as int)]
    } else {
        seq![]
    };
    let p4: Seq<Seq<char>> = if it.agility != 0 {
        seq!["Agilité: "@ + signed_dec_str(it.agility as int)]
    } else {
        seq![]
    };
    p1 + p2 + p3 + p4
}

/// The given parts joined with a comma and a space.
pub open spec fn spec_join_comma(parts: Seq<Seq<char>>) -> Seq<char>
    decreases parts.len(),
{
    if parts.len() == 0 {
        Seq::empty()
    } else if parts.len() == 1 {
        parts[0]
    } else {
        parts[0] + ", "@ + spec_join_comma(parts.drop_first())
    }
}

/// The one-line bonus description of an item: its non-zero stat deltas joined
/// with commas, or a fixed no-bonus notice when every delta is zero.
pub open spec fn spec_stats_description(it: Item) -> Seq<char> {
    if spec_stats_parts(it).len() == 0 {
        "Aucun bonus"@
    } else {
        spec_join_comma(spec_stats_parts(it))
    }
}

/// The first item of the catalog with the given id, if any.
pub open spec fn spec_find_item(all: Seq<Item>, id: u32) -> Option<Item>
    decreases all.len(),
{
    if all.len() == 0 {
        None
    } else if all[0].id == id {
        Some(all[0])
    } else {
        spec_find_item(all.drop_first(), id)
    }
}

/// Some item of the sequence has the given id.
pub open spec fn spec_has_item(inv: Seq<Item>, id: u32) -> bool {
    exists|j: int| 0 <= j < inv.len() && inv[j].id == id
}

/// The sequence with its first item of the given id removed; unchanged when no
/// item has that id.
pub open spec fn spec_remove_first_item(inv: Seq<Item>, id: u32) -> Seq<Item>
    decreases inv.len(),
{
    if inv.len() == 0 {
        inv
    } else if inv[0].id == id {
        inv.drop_first()
    } else {
        seq![inv[0]] + spec_remove_first_item(inv.drop_first(), id)
    }
}

/// The items selected by a list of ids, in order, ids the catalog does not
/// know silently dropped.
pub open spec fn spec_loot_items(ids: Seq<u32>, catalog: Seq<Item>) -> Seq<Item>
    decreases ids.len(),
{
    if ids.len() == 0 {
        Seq::empty()
    } else {
        spec_loot_items(ids.drop_last(), catalog) + match spec_find_item(catalog, ids.last()) {
            Some(it) => seq![it],
            None => Seq::empty(),
        }
    }
}

/// Removing the first item with id `id` is removing at the first index that
/// carries that id.
pub proof fn lemma_remove_first_at(inv: Seq<Item>, id: u32, i: int)
    requires
        0 <= i < inv.len(),
        inv[i].id == id,
        forall|j: int| 0 <= j < i ==> inv[j].id != id,
    ensures
        spec_remove_first_item(inv, id) == inv.remove(i),
    decreases i,
{
    if i == 0 {
        assert(inv.remove(0) =~= inv.drop_first());
    } else {
        lemma_remove_first_at(inv.drop_first(), id, i - 1);
        assert(inv.remove(i) =~= seq![inv[0]] + inv.drop_first().remove(i - 1));
    }
}

/// The first item of the catalog with the given id, if any.
pub fn find_item_by_id(all: &Vec<Item>, id: u32) -> (r: Option<&Item>)
    ensures
        match r {
            Some(it) => spec_find_item(all@, id) == Some(*it),
            None => spec_find_item(all@, id) is None,
        },
{
    let mut i: usize = 0;
    proof {
        assert(all@.skip(0) =~= all@);
    }
    while i < all.len()
        invariant
            i <= all@.len(),
            spec_find_item(all@, id) == spec_find_item(all@.skip(i as int), id),
        decreases all@.len() - i,
    {
        if all[i].id == id {
            proof {
                assert(all@.skip(i as int)[0] == all@[i as int]);
            }
            return Some(&all[i]);
        }
        proof {
            assert(all@.skip(i as int).drop_first() =~= all@.skip(i as int + 1));
        }
        i = i + 1;
    }
    None
}

/// The first index carrying the given id, if any item does.
pub fn find_item_index(inv: &Vec<Item>, id: u32) -> (r: Option<usize>)
    ensures
        match r {
            Some(i) => i < inv@.len() && inv@[i as int].id == id && (forall|j: int|
                0 <= j < i ==> inv@[j].id != id) && spec_has_item(inv@, id),
            None => !spec_has_item(inv@, id),
        },
{
    let mut i: usize = 0;
    while i < inv.len()
        invariant
            i <= inv@.len(),
            forall|j: int| 0 <= j < i ==> inv@[j].id != id,
        decreases inv@.len() - i,
    {
        if inv[i].id == id {
            return Some(i);
        }
        i = i + 1;
    }
    None
}

/// The views of a vector of strings.
pub open spec fn views_of_strings(v: Seq<String>) -> Seq<Seq<char>> {
    v.map_values(|s: String| s@)
}

/// Joins `parts[i..]` with a comma and a space.
fn join_comma_from(parts: &Vec<String>, i: usize) -> (r: String)
    requires
        i < parts@.len(),
    ensures
        r@ == spec_join_comma(views_of_strings(parts@).skip(i as int)),
    decreases parts@.len() - i,
{
    let ghost views = views_of_strings(parts@).skip(i as int);
    if i == parts.len() - 1 {
        let r = parts[i].clone();
        proof {
            assert(r@ =~= spec_join_comma(views));
        }
        r
    } else {
        let mut r = parts[i].clone();
        r.append(", ");
        let rest = join_comma_from(parts, i + 1);
        r.append(rest.as_str());
        proof {
            assert(views.drop_first() =~= views_of_strings(parts@).skip(i as int + 1));
            assert(r@ =~= spec_join_comma(views));
        }
        r
    }
}

impl Item {
    /// An item can be equipped exactly when it is a weapon, an armor or an
    /// amulet.
    pub fn is_equipable(&self) -> (r: bool)
        ensures
            r == spec_is_equipable(self.item_type),
    {
        matches!(self.item_type, ItemType::Arme | ItemType::Armure | ItemType::Amulette)
    }

    /// An item can be consumed exactly when it is a consumable.
    pub fn is_consumable(&self) -> (r: bool)
        ensures
            r == spec_is_consumable(self.item_type),
    {
        matches!(self.item_type, ItemType::Consommable)
    }

    /// The display name of this item's type.
    pub fn get_type_name(&self) -> (r: &str)
        ensures
            r@ == spec_type_name(self.item_type),
    {
        match self.item_type {
            ItemType::Arme => "Arme",
            ItemType::Armure => "Armure",
            ItemType::Amulette => "Amulette",
            ItemType::Consommable => "Consommable",
            ItemType::Cle => "Clé",
            ItemType::ObjetDeQuete => "Objet de Quête",
            ItemType::Autre => "Autre",
        }
    }

    /// An exact copy of this item.
    pub fn duplicate(&self) -> (r: Item)
        ensures
            r == *self,
    {
        Item {
            id: self.id,
            name: self.name.clone(),
            description: self.description.clone(),
            value: self.value,
            item_type: self.item_type,
            utilisable: self.utilisable,
            health: self.health,
            strength: self.strength,
            defense: self.defense,
            agility: self.agility,
        }
    }

    /// Renders the non-zero stat deltas of this item, joined with commas, or a
    /// fixed notice when the item grants no bonus at all.
    pub fn get_stats_description(&self) -> (r: String)
        ensures
            r@ == spec_stats_description(*self),
    {
        let mut parts: Vec<String> = Vec::new();
        if self.health != 0 {
            let mut s = String::new();
            s.append("Santé: ");
            s.append(i32_signed_dec(self.health).as_str());
            parts.push(s);
        }
        if self.strength != 0 {
            let mut s = String::new();
            s.append("Force: ");
            s.append(i32_signed_dec(self.strength).as_str());
            parts.push(s);
        }
        if self.defense != 0 {
            let mut s = String::new();
            s.append("Défense: ");
            s.append(i32_signed_dec(self.defense).as_str());
            parts.push(s);
        }
        if self.agility != 0 {
            let mut s = String::new();
            s.append("Agilité: ");
            s.append(i32_signed_dec(self.agility).as_str());
            parts.push(s);
        }
        proof {
            assert(views_of_strings(parts@) =~= spec_stats_parts(*self));
        }
        if parts.len() == 0 {
            let mut r = String::new();
            r.append("Aucun bonus");
            proof {
                assert(r@ =~= spec_stats_description(*self));
            }
            r
        } else {
            let r = join_comma_from(&parts, 0);
            proof {
                assert(views_of_strings(parts@).skip(0) =~= views_of_strings(parts@));
            }
            r
        }
    }
}

} // verus!
