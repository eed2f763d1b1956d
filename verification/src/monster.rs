//! Monsters and the combat primitives: the damage formula, the hit check and
//! the dodge check.

use vstd::prelude::*;
use crate::numfmt::{i32_dec, plain_dec_str};

verus! {

/// A monster as the catalog describes it: a single `health` field that serves
/// as both starting and maximum health.
#[derive(Debug, Clone)]
pub struct MonsterRaw {
    pub id: u32,
    pub name: String,
    pub description: String,
    pub health: i32,
    pub strength: i32,
    pub defense: i32,
    pub agility: i32,
    pub loot: Vec<u32>,
    pub experience: u32,
}

/// A live monster instance: one mutable copy exists per encounter, so the
/// damage it takes never writes back into the zone's catalog entry.
#[derive(Debug, Clone)]
pub struct Monster {
    pub id: u32,
    pub name: String,
    pub description: String,
    pub max_health: i32,
    pub current_health: i32,
    pub strength: i32,
    pub defense: i32,
    pub agility: i32,
    pub loot: Vec<u32>,
    pub experience: u32,
}

/// Damage of one landed hit: attacker strength minus defender defense, with a
/// floor of one, so a hit always costs at least one health point.
pub open spec fn spec_damage(attacker_strength: int, defender_defense: int) -> int {
    if attacker_strength - defender_defense >= 1 {
        attacker_strength - defender_defense
    } else {
        1
    }
}

/// A percentage sample lands a hit when it falls below the fixed hit chance of
/// ninety percent.
pub open spec fn spec_hits(roll: int) -> bool {
    roll < 90
}

/// The dodge chance in percent: twice the agility, capped at thirty, and never
/// below zero.
pub open spec fn spec_dodge_threshold(agility: int) -> int {
    if agility <= 0 {
        0
    } else if 2 * agility >= 30 {
        30
    } else {
        2 * agility
    }
}

/// How many of the twenty cells of the health bar are filled: proportional to
/// the remaining health, empty at or below zero, full at or above the maximum.
pub open spec fn spec_filled_cells(cur: int, max: int) -> int {
    if max <= 0 || cur <= 0 {
        0
    } else if cur >= max {
        20
    } else {
        cur * 20 / max
    }
}

/// `s` repeated `n` times.
pub open spec fn repeat_seq(s: Seq<char>, n: nat) -> Seq<char>
    decreases n,
{
    if n == 0 {
        Seq::empty()
    } else {
        repeat_seq(s, (n - 1) as nat) + s
    }
}

/// The rendered health bar: twenty cells between brackets, filled from the
/// left, followed by current and maximum health.
pub open spec fn spec_health_bar(m: Monster) -> Seq<char> {
    let filled = spec_filled_cells(m.current_health as int, m.max_health as int);
    "["@ + repeat_seq("█"@, filled as nat) + repeat_seq("░"@, (20 - filled) as nat) + "] "@
        + plain_dec_str(m.current_health as int) + "/"@ + plain_dec_str(m.max_health as int)
        + " HP"@
}

/// `s` repeated `n` times.
fn repeat_str(s: &str, n: usize) -> (r: String)
    ensures
        r@ == repeat_seq(s@, n as nat),
{
    let mut r = String::new();
    let mut i: usize = 0;
    while i < n
        invariant
            i <= n,
            r@ == repeat_seq(s@, i as nat),
        decreases n - i,
    {
        r.append(s);
        i = i + 1;
    }
    r
}

impl Monster {
    /// Builds the live instance of a catalog entry: current health starts at
    /// the catalog's health value, which also becomes the maximum.
    pub fn from_raw(raw: MonsterRaw) -> (m: Monster)
        ensures
            m.id == raw.id,
            m.name == raw.name,
            m.description == raw.description,
            m.max_health == raw.health,
            m.current_health == raw.health,
            m.strength == raw.strength,
            m.defense == raw.defense,
            m.agility == raw.agility,
            m.loot == raw.loot,
            m.experience == raw.experience,
    {
        Monster {
            id: raw.id,
            name: raw.name,
            description: raw.description,
            max_health: raw.health,
            current_health: raw.health,
            strength: raw.strength,
            defense: raw.defense,
            agility: raw.agility,
            loot: raw.loot,
            experience: raw.experience,
        }
    }

    /// A monster is alive exactly while its current health is positive.
    pub fn is_alive(&self) -> (r: bool)
        ensures
            r == (self.current_health > 0),
    {
        self.current_health > 0
    }

    /// Removes `damage` health points, never going below zero.
    pub fn take_damage(&mut self, damage: i32)
        requires
            i32::MIN <= old(self).current_health - damage <= i32::MAX,
        ensures
            final(self).current_health == if old(self).current_health - damage >= 0 {
                old(self).current_health - damage
            } else {
                0
            },
            *final(self) == (Monster { current_health: final(self).current_health, ..*old(self) }),
    {
        let nh = self.current_health - damage;
        self.current_health = if nh >= 0 {
            nh
        } else {
            0
        };
    }

    /// Renders the health bar of this monster.
    pub fn health_bar(&self) -> (r: String)
        ensures
            r@ == spec_health_bar(*self),
    {
        let cur = self.current_health;
        let max = self.max_health;
        let filled: usize = if max <= 0 || cur <= 0 {
            0
        } else if cur >= max {
            20
        } else {
            proof {
                assert(0 <= (cur as int) * 20 / (max as int) && (cur as int) * 20 / (max as int)
                    < 20) by (nonlinear_arith)
                    requires
                        0 < cur < max,
                ;
            }
            ((cur as i64) * 20 / (max as i64)) as usize
        };
        let mut r = String::new();
        r.append("[");
        r.append(repeat_str("█", filled).as_str());
        r.append(repeat_str("░", 20 - filled).as_str());
        r.append("] ");
        r.append(i32_dec(cur).as_str());
        r.append("/");
        r.append(i32_dec(max).as_str());
        r.append(" HP");
        proof {
            assert(r@ =~= spec_health_bar(*self));
        }
        r
    }

    /// An exact copy of this monster.
    pub fn duplicate(&self) -> (m: Monster)
        ensures
            monster_eq(m, *self),
    {
        let mut loot: Vec<u32> = Vec::new();
        let mut i: usize = 0;
        while i < self.loot.len()
            invariant
                i <= self.loot@.len(),
                loot@ == self.loot@.take(i as int),
            decreases self.loot@.len() - i,
        {
            loot.push(self.loot[i]);
            i = i + 1;
        }
        proof {
            assert(loot@ =~= self.loot@);
        }
        Monster {
            id: self.id,
            name: self.name.clone(),
            description: self.description.clone(),
            max_health: self.max_health,
            current_health: self.current_health,
            strength: self.strength,
            defense: self.defense,
            agility: self.agility,
            loot,
            experience: self.experience,
        }
    }
}

/// Two monsters agree on every field; the loot lists are compared element by
/// element.
pub open spec fn monster_eq(a: Monster, b: Monster) -> bool {
    &&& a.id == b.id
    &&& a.name == b.name
    &&& a.description == b.description
    &&& a.max_health == b.max_health
    &&& a.current_health == b.current_health
    &&& a.strength == b.strength
    &&& a.defense == b.defense
    &&& a.agility == b.agility
    &&& a.loot@ == b.loot@
    &&& a.experience == b.experience
}

/// How one encounter ended, together with the loot it yielded.
#[derive(Debug)]
pub enum CombatResult {
    /// The monster fell; the ids of the items it dropped.
    PlayerWins(Vec<u32>),
    /// The player fell.
    PlayerLoses,
    /// Neither side has fallen yet.
    Ongoing,
}

/// The outcome of one attack.
#[derive(Debug, Clone, Copy, PartialEq, Eq, Structural)]
pub enum AttackResult {
    /// The attack landed for this many damage points.
    Hit(i32),
    /// The defender dodged; no damage.
    Dodge,
    /// The attacker missed; no damage.
    Miss,
}

/// Damage of one landed hit: attacker strength minus defender defense, floored
/// at one so that combat always makes progress.
pub fn calculate_damage(attacker_strength: i32, defender_defense: i32) -> (d: i32)
    requires
        attacker_strength - defender_defense <= i32::MAX,
    ensures
        d == spec_damage(attacker_strength as int, defender_defense as int),
{
    let wide = attacker_strength as i64 - defender_defense as i64;
    if wide >= 1 {
        wide as i32
    } else {
        1
    }
}

/// Whether a would-be hit is dodged: the sample must fall below the dodge
/// chance, twice the defender's agility capped at thirty percent. A defender
/// with non-positive agility never dodges.
pub fn check_dodge(agility: i32, roll: u64) -> (r: bool)
    requires
        roll < 100,
    ensures
        r == (roll < spec_dodge_threshold(agility as int)),
{
    let threshold: i32 = if agility <= 0 {
        0
    } else if agility >= 15 {
        30
    } else {
        agility * 2
    };
    roll < threshold as u64
}

/// Whether an attack lands at all: the sample must fall below the fixed hit
/// chance of ninety percent.
pub fn calculate_hit_chance(roll: u64) -> (r: bool)
    requires
        roll < 100,
    ensures
        r == spec_hits(roll as int),
{
    roll < 90
}

} // verus!
