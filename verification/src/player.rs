//! The player: base statistics, equipment slots, inventory, health and kill
//! bookkeeping, with the equip / use-item engine.

use vstd::prelude::*;
use std::collections::HashMap;
use crate::attributes::{delta_fits, spec_apply_delta, Attributes};
use crate::item::{spec_is_consumable, spec_is_equipable, Item, ItemType};

verus! {

/// A recoverable failure of an inventory, equipment or navigation operation.
/// Every failure is surfaced as a value; the core never aborts.
#[derive(Debug, Clone, Copy, PartialEq, Eq, Structural)]
pub enum GameError {
    /// An inventory index outside the current inventory.
    InvalidIndex,
    /// The item cannot be equipped (it is not a weapon, an armor or an amulet).
    NotEquipable,
    /// The item cannot be used (not flagged usable, or not a consumable).
    NotUsable,
    /// The player's current zone id is not in the zone map.
    ZoneNotFound,
}

/// What using a consumable did.
#[derive(Debug, Clone, Copy, PartialEq, Eq, Structural)]
pub enum UseOutcome {
    /// The item was consumed and restored this many health points.
    Healed(i32),
    /// The consumable grants no health; nothing was consumed.
    NoEffect,
}

/// The three equipment slots, each holding at most one item.
#[derive(Debug, Clone)]
pub struct Equipment {
    pub arme: Option<Item>,
    pub armure: Option<Item>,
    pub amulette: Option<Item>,
}

/// The exact (unbounded) sums of the four statistics, used by specifications;
/// the executable code returns them as `i32` where they fit.
pub struct StatTotals {
    pub health: int,
    pub strength: int,
    pub defense: int,
    pub agility: int,
}

/// The stat deltas one slot contributes: those of its item, or zero when empty.
pub open spec fn spec_slot_bonus(slot: Option<Item>) -> StatTotals {
    match slot {
        Some(it) => StatTotals {
            health: it.health as int,
            strength: it.strength as int,
            defense: it.defense as int,
            agility: it.agility as int,
        },
        None => StatTotals { health: 0, strength: 0, defense: 0, agility: 0 },
    }
}

/// The aggregate bonus of an equipment set: the componentwise sum of the stat
/// deltas of every occupied slot.
pub open spec fn spec_equipment_bonus(eq: Equipment) -> StatTotals {
    let a = spec_slot_bonus(eq.arme);
    let b = spec_slot_bonus(eq.armure);
    let c = spec_slot_bonus(eq.amulette);
    StatTotals {
        health: a.health + b.health + c.health,
        strength: a.strength + b.strength + c.strength,
        defense: a.defense + b.defense + c.defense,
        agility: a.agility + b.agility + c.agility,
    }
}

/// Every field of the aggregate equipment bonus fits in an `i32`.
pub open spec fn equipment_bonus_fits(eq: Equipment) -> bool {
    let b = spec_equipment_bonus(eq);
    &&& i32::MIN <= b.health <= i32::MAX
    &&& i32::MIN <= b.strength <= i32::MAX
    &&& i32::MIN <= b.defense <= i32::MAX
    &&& i32::MIN <= b.agility <= i32::MAX
}

impl Equipment {
    /// An empty equipment set.
    pub fn new() -> (e: Equipment)
        ensures
            e.arme is None,
            e.armure is None,
            e.amulette is None,
    {
        Equipment { arme: None, armure: None, amulette: None }
    }

    /// The aggregate bonus of the occupied slots, field by field.
    pub fn get_total_stats(&self) -> (r: Attributes)
        requires
            equipment_bonus_fits(*self),
        ensures
            r.health as int == spec_equipment_bonus(*self).health,
            r.strength as int == spec_equipment_bonus(*self).strength,
            r.defense as int == spec_equipment_bonus(*self).defense,
            r.agility as int == spec_equipment_bonus(*self).agility,
    {
        let (ah, a_st, ad, aa): (i32, i32, i32, i32) = match &self.arme {
            Some(it) => (it.health, it.strength, it.defense, it.agility),
            None => (0, 0, 0, 0),
        };
        let (bh, b_st, bd, ba): (i32, i32, i32, i32) = match &self.armure {
            Some(it) => (it.health, it.strength, it.defense, it.agility),
            None => (0, 0, 0, 0),
        };
        let (ch, c_st, cd, ca): (i32, i32, i32, i32) = match &self.amulette {
            Some(it) => (it.health, it.strength, it.defense, it.agility),
            None => (0, 0, 0, 0),
        };
        Attributes {
            health: (ah as i64 + bh as i64 + ch as i64) as i32,
            strength: (a_st as i64 + b_st as i64 + c_st as i64) as i32,
            defense: (ad as i64 + bd as i64 + cd as i64) as i32,
            agility: (aa as i64 + ba as i64 + ca as i64) as i32,
        }
    }
}

/// The player character.
#[derive(Debug)]
pub struct Player {
    pub nom: String,
    /// Statistics before any equipment bonus.
    pub base_stats: Attributes,
    /// Health right now; the invariant keeps it within `[0, max health]`.
    pub current_health: i32,
    /// Carried items; independent copies of catalog entries.
    pub inventaire: Vec<Item>,
    pub equipment: Equipment,
    pub current_zone_id: u32,
    /// How many of each monster (by id) the player has defeated.
    pub monster_kills: HashMap<u32, u32>,
}

/// The player's total statistics: base statistics plus the aggregate equipment
/// bonus, componentwise.
pub open spec fn spec_total_stats(p: Player) -> StatTotals {
    let b = spec_equipment_bonus(p.equipment);
    StatTotals {
        health: p.base_stats.health + b.health,
        strength: p.base_stats.strength + b.strength,
        defense: p.base_stats.defense + b.defense,
        agility: p.base_stats.agility + b.agility,
    }
}

/// The health ceiling: the health field of the total statistics.
pub open spec fn spec_max_health(p: Player) -> int {
    spec_total_stats(p).health
}

/// The aggregate equipment bonus and every total statistic fit in an `i32`.
pub open spec fn player_stats_fit(p: Player) -> bool {
    let t = spec_total_stats(p);
    &&& equipment_bonus_fits(p.equipment)
    &&& i32::MIN <= t.health <= i32::MAX
    &&& i32::MIN <= t.strength <= i32::MAX
    &&& i32::MIN <= t.defense <= i32::MAX
    &&& i32::MIN <= t.agility <= i32::MAX
}

/// The health invariant: current health never negative and never above the
/// maximum derived from base statistics and equipment.
pub open spec fn player_wf(p: Player) -> bool {
    0 <= p.current_health && p.current_health as int <= spec_max_health(p)
}

/// How many kills of monster `id` the player has recorded.
pub open spec fn spec_kills(p: Player, id: u32) -> int {
    if p.monster_kills@.contains_key(id) {
        p.monster_kills@[id] as int
    } else {
        0
    }
}

impl Player {
    /// Assembles a freshly created character: full health from the base
    /// statistics, the given starter items, no equipment, no kills, and the
    /// starting zone.
    pub fn new_character(nom: String, base_stats: Attributes, inventaire: Vec<Item>) -> (p: Player)
        ensures
            p.nom == nom,
            p.base_stats == base_stats,
            p.current_health == base_stats.health,
            p.inventaire == inventaire,
            p.equipment.arme is None,
            p.equipment.armure is None,
            p.equipment.amulette is None,
            p.current_zone_id == 1,
            p.monster_kills@ == Map::<u32, u32>::empty(),
    {
        Player {
            nom,
            current_health: base_stats.health,
            base_stats,
            inventaire,
            equipment: Equipment::new(),
            current_zone_id: 1,
            monster_kills: HashMap::new(),
        }
    }

    /// The total statistics: base statistics plus the aggregate equipment
    /// bonus, field by field.
    pub fn get_total_stats(&self) -> (r: Attributes)
        requires
            player_stats_fit(*self),
        ensures
            r.health as int == spec_total_stats(*self).health,
            r.strength as int == spec_total_stats(*self).strength,
            r.defense as int == spec_total_stats(*self).defense,
            r.agility as int == spec_total_stats(*self).agility,
    {
        let mut total = self.base_stats;
        let equipment_bonus = self.equipment.get_total_stats();
        total.apply_delta(&equipment_bonus);
        total
    }

    /// The health ceiling: the health field of the total statistics.
    pub fn get_max_health(&self) -> (r: i32)
        requires
            player_stats_fit(*self),
        ensures
            r as int == spec_max_health(*self),
    {
        self.get_total_stats().health
    }

    /// Restores `amount` health points, clamped at the maximum health.
    pub fn heal(&mut self, amount: i32)
        requires
            amount >= 0,
            player_stats_fit(*old(self)),
        ensures
            final(self).current_health as int == if old(self).current_health + amount
                <= spec_max_health(*old(self)) {
                old(self).current_health + amount
            } else {
                spec_max_health(*old(self))
            },
            *final(self) == (Player { current_health: final(self).current_health, ..*old(self) }),
    {
        let max_health = self.get_max_health();
        let wide = self.current_health as i64 + amount as i64;
        self.current_health = if wide <= max_health as i64 {
            wide as i32
        } else {
            max_health
        };
    }

    /// Removes `damage` health points, never going below zero.
    pub fn take_damage(&mut self, damage: i32)
        requires
            damage >= 0,
            old(self).current_health - damage >= i32::MIN,
        ensures
            final(self).current_health == if old(self).current_health - damage >= 0 {
                old(self).current_health - damage
            } else {
                0
            },
            *final(self) == (Player { current_health: final(self).current_health, ..*old(self) }),
    {
        let nh = self.current_health - damage;
        self.current_health = if nh >= 0 {
            nh
        } else {
            0
        };
    }

    /// The player is alive exactly while current health is positive.
    pub fn is_alive(&self) -> (r: bool)
        ensures
            r == (self.current_health > 0),
    {
        self.current_health > 0
    }

    /// Records one more kill of monster `monster_id`; an absent entry counts
    /// as zero before the increment.
    pub fn add_monster_kill(&mut self, monster_id: u32)
        requires
            spec_kills(*old(self), monster_id) < u32::MAX,
        ensures
            final(self).monster_kills@ == old(self).monster_kills@.insert(
                monster_id,
                (spec_kills(*old(self), monster_id) + 1) as u32,
            ),
            *final(self) == (Player {
                monster_kills: final(self).monster_kills,
                ..*old(self)
            }),
    {
        let count: u32 = match self.monster_kills.get(&monster_id) {
            Some(c) => *c,
            None => 0,
        };
        self.monster_kills.insert(monster_id, count + 1);
    }

    /// How many kills of monster `monster_id` the player has recorded.
    pub fn get_monster_kills(&self, monster_id: u32) -> (r: u32)
        ensures
            r as int == spec_kills(*self, monster_id),
    {
        match self.monster_kills.get(&monster_id) {
            Some(c) => *c,
            None => 0,
        }
    }

    /// Moves the item at `index` from the inventory into the slot its type
    /// names. A displaced occupant goes back into the inventory (a swap, never
    /// a silent loss) and a copy of it is returned. Fails with `InvalidIndex`
    /// on an out-of-range index and with `NotEquipable` on an item that fits
    /// no slot; a failure changes nothing.
    ///
    /// Equipping is a bijection on occupancy: the inventory shrinks by exactly
    /// one entry when the slot was free and keeps its size when an occupant
    /// was displaced.
    pub fn equip(&mut self, index: usize) -> (r: Result<Option<Item>, GameError>)
        ensures
            index >= old(self).inventaire@.len() ==> r == Err::<Option<Item>, GameError>(
                GameError::InvalidIndex,
            ) && *final(self) == *old(self),
            index < old(self).inventaire@.len() && !spec_is_equipable(
                old(self).inventaire@[index as int].item_type,
            ) ==> r == Err::<Option<Item>, GameError>(GameError::NotEquipable) && *final(self)
                == *old(self),
            index < old(self).inventaire@.len() && spec_is_equipable(
                old(self).inventaire@[index as int].item_type,
            ) ==> ({
                let it = old(self).inventaire@[index as int];
                let displaced = if it.item_type is Arme {
                    old(self).equipment.arme
                } else if it.item_type is Armure {
                    old(self).equipment.armure
                } else {
                    old(self).equipment.amulette
                };
                &&& r == Ok::<Option<Item>, GameError>(displaced)
                &&& final(self).equipment.arme == if it.item_type is Arme {
                    Some(it)
                } else {
                    old(self).equipment.arme
                }
                &&& final(self).equipment.armure == if it.item_type is Armure {
                    Some(it)
                } else {
                    old(self).equipment.armure
                }
                &&& final(self).equipment.amulette == if it.item_type is Amulette {
                    Some(it)
                } else {
                    old(self).equipment.amulette
                }
                &&& final(self).inventaire@ == match displaced {
                    Some(d) => old(self).inventaire@.remove(index as int).push(d),
                    None => old(self).inventaire@.remove(index as int),
                }
                &&& final(self).inventaire@.len() == match displaced {
                    Some(_) => old(self).inventaire@.len() as int,
                    None => old(self).inventaire@.len() - 1,
                }
                &&& final(self).nom == old(self).nom
                &&& final(self).base_stats == old(self).base_stats
                &&& final(self).current_health == old(self).current_health
                &&& final(self).current_zone_id == old(self).current_zone_id
                &&& final(self).monster_kills == old(self).monster_kills
            }),
    {
        if index >= self.inventaire.len() {
            return Err(GameError::InvalidIndex);
        }
        if !self.inventaire[index].is_equipable() {
            return Err(GameError::NotEquipable);
        }
        let it = self.inventaire.remove(index);
        let displaced: Option<Item> = match it.item_type {
            ItemType::Arme => {
                let d = self.equipment.arme.take();
                self.equipment.arme = Some(it);
                d
            },
            ItemType::Armure => {
                let d = self.equipment.armure.take();
                self.equipment.armure = Some(it);
                d
            },
            _ => {
                let d = self.equipment.amulette.take();
                self.equipment.amulette = Some(it);
                d
            },
        };
        match displaced {
            Some(d) => {
                let copy = d.duplicate();
                self.inventaire.push(d);
                Ok(Some(copy))
            },
            None => Ok(None),
        }
    }

    /// Consumes the usable consumable at `index`: restores its health delta
    /// (clamped at maximum health) and removes it from the inventory. A
    /// consumable with no positive health delta is a reported no-op and stays.
    /// Fails with `InvalidIndex` on an out-of-range index and with `NotUsable`
    /// on an item that is not flagged usable or is no consumable; a failure
    /// changes nothing.
    pub fn use_item(&mut self, index: usize) -> (r: Result<UseOutcome, GameError>)
        requires
            player_stats_fit(*old(self)),
            player_wf(*old(self)),
        ensures
            index >= old(self).inventaire@.len() ==> r == Err::<UseOutcome, GameError>(
                GameError::InvalidIndex,
            ) && *final(self) == *old(self),
            index < old(self).inventaire@.len() && !(old(self).inventaire@[index as int].utilisable
                && spec_is_consumable(old(self).inventaire@[index as int].item_type)) ==> r
                == Err::<UseOutcome, GameError>(GameError::NotUsable) && *final(self) == *old(self),
            index < old(self).inventaire@.len() && old(self).inventaire@[index as int].utilisable
                && spec_is_consumable(old(self).inventaire@[index as int].item_type) && old(
                self,
            ).inventaire@[index as int].health <= 0 ==> r == Ok::<UseOutcome, GameError>(
                UseOutcome::NoEffect,
            ) && *final(self) == *old(self),
            index < old(self).inventaire@.len() && old(self).inventaire@[index as int].utilisable
                && spec_is_consumable(old(self).inventaire@[index as int].item_type) && old(
                self,
            ).inventaire@[index as int].health > 0 ==> ({
                let gain = old(self).inventaire@[index as int].health;
                let healed_to = if old(self).current_health + gain <= spec_max_health(*old(self)) {
                    old(self).current_health + gain
                } else {
                    spec_max_health(*old(self))
                };
                &&& final(self).current_health as int == healed_to
                &&& r == Ok::<UseOutcome, GameError>(UseOutcome::Healed(
                    (healed_to - old(self).current_health) as i32,
                ))
                &&& final(self).inventaire@ == old(self).inventaire@.remove(index as int)
                &&& final(self).equipment == old(self).equipment
                &&& final(self).nom == old(self).nom
                &&& final(self).base_stats == old(self).base_stats
                &&& final(self).current_zone_id == old(self).current_zone_id
                &&& final(self).monster_kills == old(self).monster_kills
            }),
    {
        if index >= self.inventaire.len() {
            return Err(GameError::InvalidIndex);
        }
        if !(self.inventaire[index].utilisable && self.inventaire[index].is_consumable()) {
            return Err(GameError::NotUsable);
        }
        let gain = self.inventaire[index].health;
        if gain <= 0 {
            return Ok(UseOutcome::NoEffect);
        }
        let before = self.current_health;
        self.heal(gain);
        let healed = self.current_health - before;
        self.inventaire.remove(index);
        Ok(UseOutcome::Healed(healed))
    }
}

/// Healing keeps the health invariant: starting within `[0, max]`, health
/// clamped at the maximum stays within `[0, max]`. This also covers the heal
/// performed by using a consumable.
pub proof fn lemma_heal_keeps_health_in_range(p: Player, amount: int, healed_to: int)
    requires
        player_wf(p),
        amount >= 0,
        healed_to == if p.current_health + amount <= spec_max_health(p) {
            p.current_health + amount
        } else {
            spec_max_health(p)
        },
    ensures
        0 <= healed_to <= spec_max_health(p),
{
}

/// Taking damage keeps the health invariant: starting within `[0, max]`,
/// health floored at zero stays within `[0, max]`.
pub proof fn lemma_damage_keeps_health_in_range(p: Player, damage: int, rest: int)
    requires
        player_wf(p),
        damage >= 0,
        rest == if p.current_health - damage >= 0 {
            p.current_health - damage
        } else {
            0
        },
    ensures
        0 <= rest <= spec_max_health(p),
{
}

/// Equipping keeps the health invariant whenever the new equipment set does
/// not push the maximum health below the current health: equip leaves current
/// health untouched, so the invariant of the new state needs exactly that
/// bound. (An item whose health delta is negative enough can violate it; such
/// a swap leaves the invariant to the caller's following clamp.)
pub proof fn lemma_equip_keeps_health_in_range(p: Player, q: Player)
    requires
        player_wf(p),
        q.current_health == p.current_health,
        p.current_health as int <= spec_max_health(q),
    ensures
        player_wf(q),
{
}

} // verus!
