//! Zones of the world graph: exits, resident NPCs and monsters, and the
//! deterministic id arithmetic that drives movement between zones.

use vstd::prelude::*;
use crate::monster::{monster_eq, Monster};
use crate::npc::{npc_eq, Npc};

verus! {

/// A cardinal exit direction.
#[derive(Debug, Clone, Copy, PartialEq, Eq, Structural)]
pub enum Direction {
    North,
    South,
    East,
    West,
}

/// A zone as the catalog describes it: directions as free-form strings, NPCs
/// and monsters referenced by id.
#[derive(Debug, Clone)]
pub struct ZoneRaw {
    pub id: u32,
    pub name: String,
    pub description: String,
    pub connections: Vec<String>,
    pub npcs: Vec<u32>,
    pub monsters: Option<Vec<u32>>,
}

/// A zone with its exits parsed and its residents resolved against the
/// catalogs.
#[derive(Debug, Clone)]
pub struct Zone {
    pub id: u32,
    pub name: String,
    pub description: String,
    pub connections: Vec<Direction>,
    pub npcs: Vec<Npc>,
    pub monsters: Vec<Monster>,
}

/// Lowercases one character, ASCII-only: letters `A` to `Z` gain 32, everything
/// else is unchanged.
pub open spec fn ascii_lower_char(c: char) -> char {
    if 65 <= c as u32 <= 90 {
        (((c as u32) + 32) as u8) as char
    } else {
        c
    }
}

/// The ASCII-lowercased version of a character sequence.
pub open spec fn lower_seq(s: Seq<char>) -> Seq<char> {
    s.map_values(|c: char| ascii_lower_char(c))
}

/// The direction a token names, compared without regard to ASCII case; both
/// the English and the French name of each direction are recognized.
/// Unrecognized tokens name no direction.
pub open spec fn spec_parse_direction(s: Seq<char>) -> Option<Direction> {
    let l = lower_seq(s);
    if l == "north"@ || l == "nord"@ {
        Some(Direction::North)
    } else if l == "south"@ || l == "sud"@ {
        Some(Direction::South)
    } else if l == "east"@ || l == "est"@ {
        Some(Direction::East)
    } else if l == "west"@ || l == "ouest"@ {
        Some(Direction::West)
    } else {
        None
    }
}

/// The directions named by a list of tokens, in order, unrecognized tokens
/// dropped.
pub open spec fn spec_parse_connections(ss: Seq<String>) -> Seq<Direction>
    decreases ss.len(),
{
    if ss.len() == 0 {
        Seq::empty()
    } else {
        spec_parse_connections(ss.drop_last()) + match spec_parse_direction(ss.last()@) {
            Some(d) => seq![d],
            None => Seq::empty(),
        }
    }
}

/// The first NPC of the catalog with the given id, if any.
pub open spec fn spec_find_npc(all: Seq<Npc>, id: u32) -> Option<Npc>
    decreases all.len(),
{
    if all.len() == 0 {
        None
    } else if all[0].id == id {
        Some(all[0])
    } else {
        spec_find_npc(all.drop_first(), id)
    }
}

/// The first monster of the catalog with the given id, if any.
pub open spec fn spec_find_monster(all: Seq<Monster>, id: u32) -> Option<Monster>
    decreases all.len(),
{
    if all.len() == 0 {
        None
    } else if all[0].id == id {
        Some(all[0])
    } else {
        spec_find_monster(all.drop_first(), id)
    }
}

/// The NPCs selected by a list of ids, in order, ids the catalog does not know
/// silently dropped.
pub open spec fn spec_selected_npcs(ids: Seq<u32>, all: Seq<Npc>) -> Seq<Npc>
    decreases ids.len(),
{
    if ids.len() == 0 {
        Seq::empty()
    } else {
        spec_selected_npcs(ids.drop_last(), all) + match spec_find_npc(all, ids.last()) {
            Some(n) => seq![n],
            None => Seq::empty(),
        }
    }
}

/// The monsters selected by a list of ids, in order, ids the catalog does not
/// know silently dropped.
pub open spec fn spec_selected_monsters(ids: Seq<u32>, all: Seq<Monster>) -> Seq<Monster>
    decreases ids.len(),
{
    if ids.len() == 0 {
        Seq::empty()
    } else {
        spec_selected_monsters(ids.drop_last(), all) + match spec_find_monster(all, ids.last()) {
            Some(m) => seq![m],
            None => Seq::empty(),
        }
    }
}

/// The zone id a move reaches: north adds one, south subtracts one but never
/// goes below one, east adds ten, west subtracts ten only when the current id
/// is at least ten.
pub open spec fn spec_destination(id: int, d: Direction) -> int {
    match d {
        Direction::North => id + 1,
        Direction::South => if id > 1 {
            id - 1
        } else {
            1
        },
        Direction::East => id + 10,
        Direction::West => if id >= 10 {
            id - 10
        } else {
            id
        },
    }
}

/// Lowercases one character, ASCII-only.
fn ascii_lower(c: char) -> (r: char)
    ensures
        r == ascii_lower_char(c),
{
    let x = c as u32;
    if 65 <= x && x <= 90 {
        ((x + 32) as u8) as char
    } else {
        c
    }
}

/// Whether two strings agree character for character once both are lowercased
/// ASCII-wise.
fn eq_ignore_case(s: &str, t: &str) -> (r: bool)
    ensures
        r == (lower_seq(s@) == lower_seq(t@)),
{
    let n = s.unicode_len();
    let m = t.unicode_len();
    if n != m {
        proof {
            assert(lower_seq(s@).len() == s@.len());
            assert(lower_seq(t@).len() == t@.len());
        }
        return false;
    }
    let mut i: usize = 0;
    while i < n
        invariant
            i <= n,
            n == s@.len(),
            n == t@.len(),
            forall|j: int| 0 <= j < i ==> lower_seq(s@)[j] == lower_seq(t@)[j],
        decreases n - i,
    {
        let a = ascii_lower(s.get_char(i));
        let b = ascii_lower(t.get_char(i));
        if a != b {
            proof {
                assert(lower_seq(s@)[i as int] != lower_seq(t@)[i as int]);
            }
            return false;
        }
        i = i + 1;
    }
    proof {
        assert(lower_seq(s@) =~= lower_seq(t@));
    }
    true
}

/// Parses a direction token, without regard to ASCII case; unrecognized tokens
/// give `None`.
pub fn parse_direction(s: &str) -> (r: Option<Direction>)
    ensures
        r == spec_parse_direction(s@),
{
    proof {
        reveal_strlit("north");
        reveal_strlit("nord");
        reveal_strlit("south");
        reveal_strlit("sud");
        reveal_strlit("east");
        reveal_strlit("est");
        reveal_strlit("west");
        reveal_strlit("ouest");
        assert(lower_seq("north"@) =~= "north"@);
        assert(lower_seq("nord"@) =~= "nord"@);
        assert(lower_seq("south"@) =~= "south"@);
        assert(lower_seq("sud"@) =~= "sud"@);
        assert(lower_seq("east"@) =~= "east"@);
        assert(lower_seq("est"@) =~= "est"@);
        assert(lower_seq("west"@) =~= "west"@);
        assert(lower_seq("ouest"@) =~= "ouest"@);
    }
    if eq_ignore_case(s, "north") || eq_ignore_case(s, "nord") {
        Some(Direction::North)
    } else if eq_ignore_case(s, "south") || eq_ignore_case(s, "sud") {
        Some(Direction::South)
    } else if eq_ignore_case(s, "east") || eq_ignore_case(s, "est") {
        Some(Direction::East)
    } else if eq_ignore_case(s, "west") || eq_ignore_case(s, "ouest") {
        Some(Direction::West)
    } else {
        None
    }
}

/// The zone id a move reaches from `id` going `direction`.
pub fn destination_zone_id(id: u32, direction: &Direction) -> (r: u32)
    requires
        direction is North ==> id + 1 <= u32::MAX,
        direction is East ==> id + 10 <= u32::MAX,
    ensures
        r as int == spec_destination(id as int, *direction),
{
    match direction {
        Direction::North => id + 1,
        Direction::South => if id > 1 {
            id - 1
        } else {
            1
        },
        Direction::East => id + 10,
        Direction::West => if id >= 10 {
            id - 10
        } else {
            id
        },
    }
}

/// The first NPC of the catalog with the given id, if any.
fn find_npc_by_id(all: &[Npc], id: u32) -> (r: Option<&Npc>)
    ensures
        match r {
            Some(n) => spec_find_npc(all@, id) == Some(*n),
            None => spec_find_npc(all@, id) is None,
        },
{
    let mut i: usize = 0;
    proof {
        assert(all@.skip(0) =~= all@);
    }
    while i < all.len()
        invariant
            i <= all@.len(),
            spec_find_npc(all@, id) == spec_find_npc(all@.skip(i as int), id),
        decreases all@.len() - i,
    {
        if all[i].id == id {
            proof {
                assert(all@.skip(i as int)[0] == all@[i as int]);
            }
            return Some(&all[i]);
        }
        proof {
            assert(all@.skip(i as int).drop_first() =~= all@.skip(i as int + 1));
        }
        i = i + 1;
    }
    None
}

/// The first monster of the catalog with the given id, if any.
fn find_monster_by_id(all: &[Monster], id: u32) -> (r: Option<&Monster>)
    ensures
        match r {
            Some(m) => spec_find_monster(all@, id) == Some(*m),
            None => spec_find_monster(all@, id) is None,
        },
{
    let mut i: usize = 0;
    proof {
        assert(all@.skip(0) =~= all@);
    }
    while i < all.len()
        invariant
            i <= all@.len(),
            spec_find_monster(all@, id) == spec_find_monster(all@.skip(i as int), id),
        decreases all@.len() - i,
    {
        if all[i].id == id {
            proof {
                assert(all@.skip(i as int)[0] == all@[i as int]);
            }
            return Some(&all[i]);
        }
        proof {
            assert(all@.skip(i as int).drop_first() =~= all@.skip(i as int + 1));
        }
        i = i + 1;
    }
    None
}

impl Zone {
    /// Resolves a catalog entry: parses its direction tokens (dropping
    /// unrecognized ones) and selects its resident NPCs and monsters from the
    /// catalogs (dropping dangling ids).
    pub fn from_raw(raw: ZoneRaw, all_npcs: &[Npc], all_monsters: &[Monster]) -> (z: Zone)
        ensures
            z.id == raw.id,
            z.name == raw.name,
            z.description == raw.description,
            z.connections@ == spec_parse_connections(raw.connections@),
            ({
                let sel = spec_selected_npcs(raw.npcs@, all_npcs@);
                z.npcs@.len() == sel.len() && forall|j: int|
                    0 <= j < sel.len() ==> npc_eq(#[trigger] z.npcs@[j], sel[j])
            }),
            ({
                let ids = match raw.monsters {
                    Some(v) => v@,
                    None => Seq::empty(),
                };
                let sel = spec_selected_monsters(ids, all_monsters@);
                z.monsters@.len() == sel.len() && forall|j: int|
                    0 <= j < sel.len() ==> monster_eq(#[trigger] z.monsters@[j], sel[j])
            }),
    {
        let mut connections: Vec<Direction> = Vec::new();
        let mut i: usize = 0;
        while i < raw.connections.len()
            invariant
                i <= raw.connections@.len(),
                connections@ == spec_parse_connections(raw.connections@.take(i as int)),
            decreases raw.connections@.len() - i,
        {
            match parse_direction(raw.connections[i].as_str()) {
                Some(d) => {
                    connections.push(d);
                },
                None => {},
            }
            proof {
                assert(raw.connections@.take(i as int + 1).drop_last() =~= raw.connections@.take(
                    i as int,
                ));
                assert(connections@ =~= spec_parse_connections(
                    raw.connections@.take(i as int + 1),
                ));
            }
            i = i + 1;
        }
        proof {
            assert(raw.connections@.take(raw.connections@.len() as int) =~= raw.connections@);
        }
        let mut npcs: Vec<Npc> = Vec::new();
        let mut i: usize = 0;
        while i < raw.npcs.len()
            invariant
                i <= raw.npcs@.len(),
                ({
                    let sel = spec_selected_npcs(raw.npcs@.take(i as int), all_npcs@);
                    npcs@.len() == sel.len() && forall|j: int|
                        0 <= j < sel.len() ==> npc_eq(#[trigger] npcs@[j], sel[j])
                }),
            decreases raw.npcs@.len() - i,
        {
            match find_npc_by_id(all_npcs, raw.npcs[i]) {
                Some(n) => {
                    npcs.push(n.duplicate());
                },
                None => {},
            }
            proof {
                assert(raw.npcs@.take(i as int + 1).drop_last() =~= raw.npcs@.take(i as int));
            }
            i = i + 1;
        }
        proof {
            assert(raw.npcs@.take(raw.npcs@.len() as int) =~= raw.npcs@);
        }
        let monster_ids: Vec<u32> = match raw.monsters {
            Some(v) => v,
            None => Vec::new(),
        };
        let mut monsters: Vec<Monster> = Vec::new();
        let mut i: usize = 0;
        while i < monster_ids.len()
            invariant
                i <= monster_ids@.len(),
                ({
                    let sel = spec_selected_monsters(monster_ids@.take(i as int), all_monsters@);
                    monsters@.len() == sel.len() && forall|j: int|
                        0 <= j < sel.len() ==> monster_eq(#[trigger] monsters@[j], sel[j])
                }),
            decreases monster_ids@.len() - i,
        {
            match find_monster_by_id(all_monsters, monster_ids[i]) {
                Some(m) => {
                    monsters.push(m.duplicate());
                },
                None => {},
            }
            proof {
                assert(monster_ids@.take(i as int + 1).drop_last() =~= monster_ids@.take(i as int));
            }
            i = i + 1;
        }
        proof {
            assert(monster_ids@.take(monster_ids@.len() as int) =~= monster_ids@);
        }
        Zone { id: raw.id, name: raw.name, description: raw.description, connections, npcs, monsters }
    }
}

} // verus!
