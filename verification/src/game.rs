//! The session core: one player, the zone map and the catalogs, with the
//! combat resolver, quest fulfillment and zone navigation.

use vstd::prelude::*;
use std::collections::HashMap;
use crate::attributes::Attributes;
use crate::item::{
    find_item_by_id, find_item_index, lemma_remove_first_at, spec_find_item, spec_has_item,
    spec_loot_items, spec_remove_first_item, Item,
};
use crate::monster::{
    calculate_damage, calculate_hit_chance, check_dodge, spec_damage, spec_dodge_threshold,
    spec_hits, AttackResult, Monster,
};
use crate::npc::Npc;
use crate::player::{
    player_stats_fit, spec_kills, spec_total_stats, GameError, Player,
};
use crate::quest::Quest;
use crate::zone::{destination_zone_id, spec_destination, Direction, Zone};

verus! {

/// What the player chooses at the start of a combat round.
#[derive(Debug, Clone, Copy, PartialEq, Eq, Structural)]
pub enum PlayerAction {
    /// Strike the monster this round.
    Attack,
    /// Leave the encounter; it ends at once.
    Flee,
}

/// Where an encounter stands after a round.
#[derive(Debug, Clone, Copy, PartialEq, Eq, Structural)]
pub enum CombatState {
    /// Neither side has fallen; the player chooses again.
    PlayerTurn,
    /// Terminal: the monster fell; kill and loot are recorded.
    MonsterDefeated,
    /// Terminal: the player fell and respawned at the starting zone.
    PlayerDefeated,
    /// Terminal: the player left the encounter.
    Fled,
}

/// What checking one quest against the player's inventory reported.
#[derive(Debug, Clone, PartialEq, Eq)]
pub enum QuestCheck {
    /// The quest is fulfilled; `consumed_item` tells whether a required item
    /// was handed over (and removed from the inventory).
    Completed { quest_id: u32, consumed_item: bool },
    /// The quest still waits for its required item; `hint` is the item's
    /// display name when the catalog knows it, the quest description otherwise.
    Open { quest_id: u32, hint: String },
}

/// The specification-level image of a [`QuestCheck`].
pub enum QuestReport {
    Done { quest_id: u32, consumed: bool },
    Waiting { quest_id: u32, hint: Seq<char> },
}

/// The specification-level image of a quest check outcome.
pub open spec fn view_of_check(c: QuestCheck) -> QuestReport {
    match c {
        QuestCheck::Completed { quest_id, consumed_item } => QuestReport::Done {
            quest_id,
            consumed: consumed_item,
        },
        QuestCheck::Open { quest_id, hint } => QuestReport::Waiting { quest_id, hint: hint@ },
    }
}

/// The specification-level images of a sequence of quest check outcomes.
pub open spec fn views_of_checks(s: Seq<QuestCheck>) -> Seq<QuestReport> {
    s.map_values(|c: QuestCheck| view_of_check(c))
}

/// What checking a list of quests against an inventory reports, and the
/// inventory it leaves behind. Quests are taken in order; completed ones are
/// skipped silently. A quest with no required item is reported done. One whose
/// required item the inventory holds is reported done and consumes the first
/// carried item with that id — a later quest asking for the same id needs a
/// second copy. One whose required item is missing is reported waiting, with
/// the item's catalog name as the hint, or the quest's own description when
/// the catalog does not know the id.
pub open spec fn spec_check_quests(quests: Seq<Quest>, inv: Seq<Item>, catalog: Seq<Item>) -> (
    Seq<QuestReport>,
    Seq<Item>,
)
    decreases quests.len(),
{
    if quests.len() == 0 {
        (Seq::empty(), inv)
    } else {
        let q = quests[0];
        if q.completed {
            spec_check_quests(quests.drop_first(), inv, catalog)
        } else {
            match q.objet_requis_id {
                None => {
                    let rest = spec_check_quests(quests.drop_first(), inv, catalog);
                    (
                        seq![QuestReport::Done { quest_id: q.id, consumed: false }] + rest.0,
                        rest.1,
                    )
                },
                Some(rid) => {
                    if spec_has_item(inv, rid) {
                        let rest = spec_check_quests(
                            quests.drop_first(),
                            spec_remove_first_item(inv, rid),
                            catalog,
                        );
                        (
                            seq![QuestReport::Done { quest_id: q.id, consumed: true }] + rest.0,
                            rest.1,
                        )
                    } else {
                        let hint = match spec_find_item(catalog, rid) {
                            Some(it) => it.name@,
                            None => q.description@,
                        };
                        let rest = spec_check_quests(quests.drop_first(), inv, catalog);
                        (seq![QuestReport::Waiting { quest_id: q.id, hint }] + rest.0, rest.1)
                    }
                },
            }
        }
    }
}

/// One whole session: the player, the world and the immutable catalogs.
#[derive(Debug)]
pub struct Game {
    pub player: Player,
    pub zones: HashMap<u32, Zone>,
    pub all_npcs: Vec<Npc>,
    pub all_items: Vec<Item>,
    pub all_quests: Vec<Quest>,
    pub all_monsters: Vec<Monster>,
}

/// The health values after one attack round and whether the round ended the
/// encounter: the player's strike (when it hits) costs the monster `dp` points
/// floored at zero; a monster at zero ends the round at once (the monster
/// never strikes back dead); otherwise the monster's strike (when it hits and
/// is not dodged) costs the player `dm` points floored at zero, and a player
/// at zero ends the encounter.
pub open spec fn spec_round_health(p: int, m: int, dp: int, dm: int, p_hit: bool, m_hit: bool) -> (
    int,
    int,
    bool,
) {
    let m2 = if p_hit {
        if m - dp >= 0 {
            m - dp
        } else {
            0
        }
    } else {
        m
    };
    if m2 == 0 {
        (p, m2, true)
    } else {
        let p2 = if m_hit {
            if p - dm >= 0 {
                p - dm
            } else {
                0
            }
        } else {
            p
        };
        (p2, m2, p2 == 0)
    }
}

/// The health values after a run of attack rounds, stopped at the first
/// terminal round; the boolean tells whether a terminal round was reached.
pub open spec fn spec_run_rounds(p: int, m: int, dp: int, dm: int, events: Seq<(bool, bool)>) -> (
    int,
    int,
    bool,
)
    decreases events.len(),
{
    if events.len() == 0 {
        (p, m, false)
    } else {
        let r = spec_round_health(p, m, dp, dm, events[0].0, events[0].1);
        if r.2 {
            r
        } else {
            spec_run_rounds(r.0, r.1, dp, dm, events.drop_first())
        }
    }
}

/// Combat always terminates, the damage floor of one being the reason: in any
/// run of rounds whose player attacks all land (the monster's answers may hit,
/// be dodged or miss freely), every round costs the monster at least one
/// health point, so a terminal state — the monster falls, or the player falls
/// first — is reached within the monster's current health in rounds.
pub proof fn lemma_combat_terminates(p: int, m: int, dp: int, dm: int, events: Seq<(bool, bool)>)
    requires
        p > 0,
        m > 0,
        dp >= 1,
        dm >= 1,
        events.len() >= m,
        forall|i: int| 0 <= i < events.len() ==> (#[trigger] events[i]).0,
    ensures
        spec_run_rounds(p, m, dp, dm, events).2,
    decreases events.len(),
{
    let r = spec_round_health(p, m, dp, dm, events[0].0, events[0].1);
    if !r.2 {
        assert(forall|i: int|
            0 <= i < events.drop_first().len() ==> (#[trigger] events.drop_first()[i]).0);
        lemma_combat_terminates(r.0, r.1, dp, dm, events.drop_first());
    }
}

impl Game {
    /// The zone the player stands in, or `ZoneNotFound` when the player's
    /// current zone id is not in the zone map.
    pub fn current_zone(&self) -> (r: Result<&Zone, GameError>)
        ensures
            match r {
                Ok(z) => self.zones@.contains_key(self.player.current_zone_id) && *z
                    == self.zones@[self.player.current_zone_id],
                Err(e) => e == GameError::ZoneNotFound && !self.zones@.contains_key(
                    self.player.current_zone_id,
                ),
            },
    {
        match self.zones.get(&self.player.current_zone_id) {
            Some(z) => Ok(z),
            None => Err(GameError::ZoneNotFound),
        }
    }

    /// Moves the player one zone over: the destination id follows the fixed id
    /// arithmetic; when no zone has that id the move is blocked and nothing
    /// changes. Returns whether the player moved.
    pub fn deplacer_joueur(&mut self, direction: &Direction) -> (moved: bool)
        requires
            *direction is North ==> old(self).player.current_zone_id + 1 <= u32::MAX,
            *direction is East ==> old(self).player.current_zone_id + 10 <= u32::MAX,
        ensures
            ({
                let dest = spec_destination(old(self).player.current_zone_id as int, *direction);
                &&& moved == old(self).zones@.contains_key(dest as u32)
                &&& final(self).player.current_zone_id as int == if moved {
                    dest
                } else {
                    old(self).player.current_zone_id as int
                }
            }),
            final(self).player == (Player {
                current_zone_id: final(self).player.current_zone_id,
                ..old(self).player
            }),
            final(self).zones == old(self).zones,
            final(self).all_npcs == old(self).all_npcs,
            final(self).all_items == old(self).all_items,
            final(self).all_quests == old(self).all_quests,
            final(self).all_monsters == old(self).all_monsters,
    {
        let dest = destination_zone_id(self.player.current_zone_id, direction);
        if self.zones.contains_key(&dest) {
            self.player.current_zone_id = dest;
            true
        } else {
            false
        }
    }

    /// Resolves the player's strike: a hit-chance check, then the damage
    /// formula against the monster's defense. The player never dodges here.
    pub fn attaque_joueur(&self, player_stats: &Attributes, monster: &Monster, hit_roll: u64) -> (r:
        AttackResult)
        requires
            hit_roll < 100,
            player_stats.strength - monster.defense <= i32::MAX,
        ensures
            r == if spec_hits(hit_roll as int) {
                AttackResult::Hit(
                    spec_damage(player_stats.strength as int, monster.defense as int) as i32,
                )
            } else {
                AttackResult::Miss
            },
    {
        if calculate_hit_chance(hit_roll) {
            let damage = calculate_damage(player_stats.strength, monster.defense);
            AttackResult::Hit(damage)
        } else {
            AttackResult::Miss
        }
    }

    /// Resolves the monster's strike: a hit-chance check, then the player's
    /// dodge check on agility, then the damage formula against the player's
    /// defense.
    pub fn attaque_monstre(
        &self,
        monster: &Monster,
        player_stats: &Attributes,
        hit_roll: u64,
        dodge_roll: u64,
    ) -> (r: AttackResult)
        requires
            hit_roll < 100,
            dodge_roll < 100,
            monster.strength - player_stats.defense <= i32::MAX,
        ensures
            r == if !spec_hits(hit_roll as int) {
                AttackResult::Miss
            } else if dodge_roll < spec_dodge_threshold(player_stats.agility as int) {
                AttackResult::Dodge
            } else {
                AttackResult::Hit(
                    spec_damage(monster.strength as int, player_stats.defense as int) as i32,
                )
            },
    {
        if calculate_hit_chance(hit_roll) {
            if check_dodge(player_stats.agility, dodge_roll) {
                AttackResult::Dodge
            } else {
                let damage = calculate_damage(monster.strength, player_stats.defense);
                AttackResult::Hit(damage)
            }
        } else {
            AttackResult::Miss
        }
    }

    /// Plays one combat round. A fleeing player ends the encounter at once and
    /// nothing changes. An attacking player strikes first: a hit check, then
    /// the damage formula against the monster's defense. A monster at zero
    /// health falls — one kill and its loot are booked — and the round ends.
    /// Otherwise the monster strikes back: a hit check, the player's dodge
    /// check on agility, then the damage formula against the player's total
    /// defense. A player at zero health respawns with one health point at the
    /// starting zone, and the encounter ends. Each check consumes one
    /// percentage sample, handed in by the caller's random source.
    pub fn combat_round(
        &mut self,
        monster: &mut Monster,
        action: PlayerAction,
        player_roll: u64,
        monster_roll: u64,
        dodge_roll: u64,
    ) -> (st: CombatState)
        requires
            player_roll < 100,
            monster_roll < 100,
            dodge_roll < 100,
            old(self).player.current_health > 0,
            old(monster).current_health > 0,
            player_stats_fit(old(self).player),
            spec_total_stats(old(self).player).strength - old(monster).defense <= i32::MAX,
            old(monster).strength - spec_total_stats(old(self).player).defense <= i32::MAX,
            spec_kills(old(self).player, old(monster).id) < u32::MAX,
        ensures
            action is Flee ==> st == CombatState::Fled && *final(self) == *old(self)
                && *final(monster) == *old(monster),
            action is Attack ==> ({
                let dp = spec_damage(
                    spec_total_stats(old(self).player).strength,
                    old(monster).defense as int,
                );
                let dm = spec_damage(
                    old(monster).strength as int,
                    spec_total_stats(old(self).player).defense,
                );
                let p_hit = spec_hits(player_roll as int);
                let m_hit = spec_hits(monster_roll as int) && !(dodge_roll < spec_dodge_threshold(
                    spec_total_stats(old(self).player).agility,
                ));
                let r = spec_round_health(
                    old(self).player.current_health as int,
                    old(monster).current_health as int,
                    dp,
                    dm,
                    p_hit,
                    m_hit,
                );
                &&& final(monster).current_health as int == r.1
                &&& *final(monster) == (Monster {
                    current_health: final(monster).current_health,
                    ..*old(monster)
                })
                &&& st == if r.2 {
                    if r.1 == 0 {
                        CombatState::MonsterDefeated
                    } else {
                        CombatState::PlayerDefeated
                    }
                } else {
                    CombatState::PlayerTurn
                }
                &&& r.1 == 0 ==> {
                    &&& final(self).player.monster_kills@
                        == old(self).player.monster_kills@.insert(
                        old(monster).id,
                        (spec_kills(old(self).player, old(monster).id) + 1) as u32,
                    )
                    &&& final(self).player.inventaire@ == old(self).player.inventaire@
                        + spec_loot_items(old(monster).loot@, old(self).all_items@)
                    &&& final(self).player.current_health == old(self).player.current_health
                    &&& final(self).player.current_zone_id == old(self).player.current_zone_id
                }
                &&& r.2 && r.1 != 0 ==> {
                    &&& final(self).player.current_health == 1
                    &&& final(self).player.current_zone_id == 1
                    &&& final(self).player.inventaire@ == old(self).player.inventaire@
                    &&& final(self).player.monster_kills == old(self).player.monster_kills
                }
                &&& !r.2 ==> {
                    &&& final(self).player.current_health as int == r.0
                    &&& final(self).player.current_zone_id == old(self).player.current_zone_id
                    &&& final(self).player.inventaire@ == old(self).player.inventaire@
                    &&& final(self).player.monster_kills == old(self).player.monster_kills
                }
                &&& final(self).player.nom == old(self).player.nom
                &&& final(self).player.base_stats == old(self).player.base_stats
                &&& final(self).player.equipment == old(self).player.equipment
                &&& final(self).zones == old(self).zones
                &&& final(self).all_npcs == old(self).all_npcs
                &&& final(self).all_items == old(self).all_items
                &&& final(self).all_quests == old(self).all_quests
                &&& final(self).all_monsters == old(self).all_monsters
            }),
    {
        match action {
            PlayerAction::Flee => {
                return CombatState::Fled;
            },
            PlayerAction::Attack => {},
        }
        let stats = self.player.get_total_stats();
        let attack = self.attaque_joueur(&stats, monster, player_roll);
        match attack {
            AttackResult::Hit(damage) => {
                monster.take_damage(damage);
            },
            _ => {},
        }
        if !monster.is_alive() {
            self.gerer_victoire(monster);
            return CombatState::MonsterDefeated;
        }
        let answer = self.attaque_monstre(monster, &stats, monster_roll, dodge_roll);
        match answer {
            AttackResult::Hit(damage) => {
                self.player.take_damage(damage);
            },
            _ => {},
        }
        if !self.player.is_alive() {
            self.player.current_health = 1;
            self.player.current_zone_id = 1;
            return CombatState::PlayerDefeated;
        }
        CombatState::PlayerTurn
    }

    /// Checks every quest of an NPC against the player's inventory, in order.
    /// Completed quests are skipped. A quest with no required item is reported
    /// done. One whose required item the player carries is reported done and
    /// consumes the first carried item with that id. One whose required item
    /// is missing is reported waiting, hinting at the item's catalog name, or
    /// at the quest description when the catalog does not know the id.
    ///
    /// Fulfillment is reported, not written back into the quest's `completed`
    /// flag: the NPC's quest list is a load-time snapshot, so a fulfilled
    /// fetch quest reports completion again on a later interaction if the
    /// player carries another copy of the item.
    pub fn interagir_avec_npc(&mut self, npc: &Npc) -> (out: Vec<QuestCheck>)
        ensures
            ({
                let r = spec_check_quests(
                    npc.quests@,
                    old(self).player.inventaire@,
                    old(self).all_items@,
                );
                &&& views_of_checks(out@) == r.0
                &&& final(self).player.inventaire@ == r.1
            }),
            final(self).player.nom == old(self).player.nom,
            final(self).player.base_stats == old(self).player.base_stats,
            final(self).player.current_health == old(self).player.current_health,
            final(self).player.equipment == old(self).player.equipment,
            final(self).player.current_zone_id == old(self).player.current_zone_id,
            final(self).player.monster_kills == old(self).player.monster_kills,
            final(self).zones == old(self).zones,
            final(self).all_npcs == old(self).all_npcs,
            final(self).all_items == old(self).all_items,
            final(self).all_quests == old(self).all_quests,
            final(self).all_monsters == old(self).all_monsters,
    {
        let ghost inv0 = self.player.inventaire@;
        let ghost cat = self.all_items@;
        let ghost full = spec_check_quests(npc.quests@, inv0, cat);
        let mut out: Vec<QuestCheck> = Vec::new();
        let mut k: usize = 0;
        proof {
            assert(npc.quests@.skip(0) =~= npc.quests@);
        }
        while k < npc.quests.len()
            invariant
                k <= npc.quests@.len(),
                inv0 == old(self).player.inventaire@,
                cat == old(self).all_items@,
                full == spec_check_quests(npc.quests@, inv0, cat),
                ({
                    let rest = spec_check_quests(
                        npc.quests@.skip(k as int),
                        self.player.inventaire@,
                        cat,
                    );
                    full.0 == views_of_checks(out@) + rest.0 && full.1 == rest.1
                }),
                self.player.nom == old(self).player.nom,
                self.player.base_stats == old(self).player.base_stats,
                self.player.current_health == old(self).player.current_health,
                self.player.equipment == old(self).player.equipment,
                self.player.current_zone_id == old(self).player.current_zone_id,
                self.player.monster_kills == old(self).player.monster_kills,
                self.zones == old(self).zones,
                self.all_npcs == old(self).all_npcs,
                self.all_items == old(self).all_items,
                self.all_quests == old(self).all_quests,
                self.all_monsters == old(self).all_monsters,
            decreases npc.quests@.len() - k,
        {
            let ghost pre_inv = self.player.inventaire@;
            let ghost tail = npc.quests@.skip(k as int);
            proof {
                assert(tail[0] == npc.quests@[k as int]);
                assert(tail.drop_first() =~= npc.quests@.skip(k as int + 1));
            }
            let q = &npc.quests[k];
            if !q.completed {
                match q.objet_requis_id {
                    None => {
                        let check = QuestCheck::Completed { quest_id: q.id, consumed_item: false };
                        proof {
                            assert(views_of_checks(out@.push(check)) =~= views_of_checks(out@).push(
                                view_of_check(check),
                            ));
                            assert(views_of_checks(out@).push(view_of_check(check))
                                + spec_check_quests(tail.drop_first(), pre_inv, cat).0
                                =~= views_of_checks(out@) + spec_check_quests(tail, pre_inv, cat).0);
                        }
                        out.push(check);
                    },
                    Some(rid) => {
                        match find_item_index(&self.player.inventaire, rid) {
                            Some(idx) => {
                                proof {
                                    lemma_remove_first_at(pre_inv, rid, idx as int);
                                }
                                self.player.inventaire.remove(idx);
                                let check = QuestCheck::Completed {
                                    quest_id: q.id,
                                    consumed_item: true,
                                };
                                proof {
                                    assert(views_of_checks(out@.push(check)) =~= views_of_checks(
                                        out@,
                                    ).push(view_of_check(check)));
                                    assert(views_of_checks(out@).push(view_of_check(check))
                                        + spec_check_quests(
                                        tail.drop_first(),
                                        spec_remove_first_item(pre_inv, rid),
                                        cat,
                                    ).0 =~= views_of_checks(out@) + spec_check_quests(
                                        tail,
                                        pre_inv,
                                        cat,
                                    ).0);
                                }
                                out.push(check);
                            },
                            None => {
                                let hint: String = match find_item_by_id(&self.all_items, rid) {
                                    Some(it) => it.name.clone(),
                                    None => q.description.clone(),
                                };
                                let check = QuestCheck::Open { quest_id: q.id, hint };
                                proof {
                                    assert(views_of_checks(out@.push(check)) =~= views_of_checks(
                                        out@,
                                    ).push(view_of_check(check)));
                                    assert(views_of_checks(out@).push(view_of_check(check))
                                        + spec_check_quests(tail.drop_first(), pre_inv, cat).0
                                        =~= views_of_checks(out@) + spec_check_quests(
                                        tail,
                                        pre_inv,
                                        cat,
                                    ).0);
                                }
                                out.push(check);
                            },
                        }
                    },
                }
            }
            k = k + 1;
        }
        proof {
            assert(npc.quests@.skip(npc.quests@.len() as int).len() == 0);
            assert(views_of_checks(out@) =~= views_of_checks(out@) + Seq::<QuestReport>::empty());
        }
        out
    }

    /// Books a victory: records one kill of the monster and pushes a catalog
    /// copy of every item of its loot list into the inventory, in order, loot
    /// ids the catalog does not know silently skipped. The monster's
    /// experience is reported by the caller; no experience field is kept.
    pub fn gerer_victoire(&mut self, monster: &Monster)
        requires
            spec_kills(old(self).player, monster.id) < u32::MAX,
        ensures
            final(self).player.monster_kills@ == old(self).player.monster_kills@.insert(
                monster.id,
                (spec_kills(old(self).player, monster.id) + 1) as u32,
            ),
            final(self).player.inventaire@ == old(self).player.inventaire@ + spec_loot_items(
                monster.loot@,
                old(self).all_items@,
            ),
            final(self).player.nom == old(self).player.nom,
            final(self).player.base_stats == old(self).player.base_stats,
            final(self).player.current_health == old(self).player.current_health,
            final(self).player.equipment == old(self).player.equipment,
            final(self).player.current_zone_id == old(self).player.current_zone_id,
            final(self).zones == old(self).zones,
            final(self).all_npcs == old(self).all_npcs,
            final(self).all_items == old(self).all_items,
            final(self).all_quests == old(self).all_quests,
            final(self).all_monsters == old(self).all_monsters,
    {
        self.player.add_monster_kill(monster.id);
        let ghost inv0 = self.player.inventaire@;
        let mut i: usize = 0;
        while i < monster.loot.len()
            invariant
                i <= monster.loot@.len(),
                inv0 == old(self).player.inventaire@,
                self.player.inventaire@ == inv0 + spec_loot_items(
                    monster.loot@.take(i as int),
                    old(self).all_items@,
                ),
                self.player.monster_kills@ == old(self).player.monster_kills@.insert(
                    monster.id,
                    (spec_kills(old(self).player, monster.id) + 1) as u32,
                ),
                self.player.nom == old(self).player.nom,
                self.player.base_stats == old(self).player.base_stats,
                self.player.current_health == old(self).player.current_health,
                self.player.equipment == old(self).player.equipment,
                self.player.current_zone_id == old(self).player.current_zone_id,
                self.zones == old(self).zones,
                self.all_npcs == old(self).all_npcs,
                self.all_items == old(self).all_items,
                self.all_quests == old(self).all_quests,
                self.all_monsters == old(self).all_monsters,
            decreases monster.loot@.len() - i,
        {
            match find_item_by_id(&self.all_items, monster.loot[i]) {
                Some(it) => {
                    let copy = it.duplicate();
                    self.player.inventaire.push(copy);
                },
                None => {},
            }
            proof {
                assert(monster.loot@.take(i as int + 1).drop_last() =~= monster.loot@.take(
                    i as int,
                ));
                assert(self.player.inventaire@ =~= inv0 + spec_loot_items(
                    monster.loot@.take(i as int + 1),
                    self.all_items@,
                ));
            }
            i = i + 1;
        }
        proof {
            assert(monster.loot@.take(monster.loot@.len() as int) =~= monster.loot@);
        }
    }
}

} // verus!
