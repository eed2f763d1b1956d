use std::collections::HashMap;
use rpg::attributes::Attributes;
use rpg::item::{Item, ItemType};
use rpg::player::{Equipment, GameError, Player, UseOutcome};

fn dummy_item(name: &str, health: i32, strength: i32, defense: i32, agility: i32) -> Item {
    Item {
        id: 0,
        name: name.to_string(),
        description: "".to_string(),
        value: 0,
        item_type: ItemType::Consommable,
        utilisable: false,
        health,
        strength,
        defense,
        agility,
    }
}

fn create_test_player() -> Player {
    let base_stats = Attributes::new(50, 10, 5, 3);
    Player {
        nom: "Testeur".to_string(),
        base_stats: base_stats.clone(),
        current_health: base_stats.health,
        inventaire: vec![],
        equipment: Equipment::new(),
        current_zone_id: 1,
        monster_kills: HashMap::new(),
    }
}

#[test]
fn test_total_stats_with_equipment() {
    let mut player = create_test_player();
    player.equipment.arme = Some(dummy_item("Épée", 0, 5, 0, 0));
    player.equipment.armure = Some(dummy_item("Armure", 10, 0, 3, 0));
    player.equipment.amulette = Some(dummy_item("Amulette", 5, 0, 0, 2));

    let total = player.get_total_stats();
    assert_eq!(total.health, 50 + 10 + 5);
    assert_eq!(total.strength, 10 + 5);
    assert_eq!(total.defense, 5 + 3);
    assert_eq!(total.agility, 3 + 2);
}

#[test]
fn test_heal_and_damage() {
    let mut player = create_test_player();
    player.take_damage(30);
    assert_eq!(player.current_health, 20);

    player.heal(5);
    assert_eq!(player.current_health, 25);

    player.heal(50); // Ne doit pas dépasser la santé max
    assert_eq!(player.current_health, player.get_max_health());
}

#[test]
fn test_is_alive_logic() {
    let mut player = create_test_player();
    assert!(player.is_alive());

    player.take_damage(999);
    assert_eq!(player.current_health, 0);
    assert!(!player.is_alive());
}

#[test]
fn test_monster_kills_tracking() {
    let mut player = create_test_player();
    assert_eq!(player.get_monster_kills(42), 0);

    player.add_monster_kill(42);
    assert_eq!(player.get_monster_kills(42), 1);

    player.add_monster_kill(42);
    assert_eq!(player.get_monster_kills(42), 2);
}

fn equipable(id: u32, name: &str, item_type: ItemType, strength: i32) -> Item {
    Item {
        id,
        name: name.to_string(),
        description: "".to_string(),
        value: 10,
        item_type,
        utilisable: false,
        health: 0,
        strength,
        defense: 0,
        agility: 0,
    }
}

#[test]
fn test_equip_into_free_slot() {
    let mut player = create_test_player();
    player.inventaire.push(equipable(7, "Épée courte", ItemType::Arme, 3));
    let displaced = player.equip(0).unwrap();
    assert!(displaced.is_none());
    // L'inventaire perd exactement une entrée quand l'emplacement était libre.
    assert_eq!(player.inventaire.len(), 0);
    assert_eq!(player.equipment.arme.as_ref().unwrap().id, 7);
    assert_eq!(player.get_total_stats().strength, 13);
}

#[test]
fn test_equip_swaps_occupant() {
    let mut player = create_test_player();
    player.inventaire.push(equipable(7, "Épée courte", ItemType::Arme, 3));
    player.inventaire.push(equipable(8, "Épée longue", ItemType::Arme, 6));
    player.equip(0).unwrap();
    let before = player.inventaire.len();
    let displaced = player.equip(0).unwrap();
    // Échange: exactement un objet délogé revient dans l'inventaire.
    assert_eq!(displaced.unwrap().id, 7);
    assert_eq!(player.inventaire.len(), before);
    assert_eq!(player.inventaire.last().unwrap().id, 7);
    assert_eq!(player.equipment.arme.as_ref().unwrap().id, 8);
}

#[test]
fn test_equip_errors() {
    let mut player = create_test_player();
    assert_eq!(player.equip(0), Err(GameError::InvalidIndex));
    player.inventaire.push(dummy_item("Potion", 30, 0, 0, 0));
    assert_eq!(player.equip(0), Err(GameError::NotEquipable));
    assert_eq!(player.inventaire.len(), 1);
}

#[test]
fn test_use_item_heals_clamped() {
    let mut player = create_test_player();
    player.take_damage(10);
    let mut potion = dummy_item("Potion", 30, 0, 0, 0);
    potion.utilisable = true;
    player.inventaire.push(potion);
    let outcome = player.use_item(0).unwrap();
    // Seuls 10 points manquaient: le soin est borné par la santé maximale.
    assert_eq!(outcome, UseOutcome::Healed(10));
    assert_eq!(player.current_health, 50);
    assert_eq!(player.inventaire.len(), 0);
}

#[test]
fn test_use_item_no_effect() {
    let mut player = create_test_player();
    let mut flat = dummy_item("Potion éventée", 0, 0, 0, 0);
    flat.utilisable = true;
    player.inventaire.push(flat);
    assert_eq!(player.use_item(0), Ok(UseOutcome::NoEffect));
    // L'objet sans effet n'est pas consommé.
    assert_eq!(player.inventaire.len(), 1);
}

#[test]
fn test_use_item_errors() {
    let mut player = create_test_player();
    assert_eq!(player.use_item(3), Err(GameError::InvalidIndex));
    player.inventaire.push(dummy_item("Potion scellée", 30, 0, 0, 0)); // utilisable: false
    assert_eq!(player.use_item(0), Err(GameError::NotUsable));
    player.inventaire.push(equipable(9, "Épée", ItemType::Arme, 2));
    assert_eq!(player.use_item(1), Err(GameError::NotUsable));
    assert_eq!(player.inventaire.len(), 2);
}

#[test]
fn test_new_character() {
    let base = Attributes::new(80, 6, 4, 18);
    let player = Player::new_character("Mage".to_string(), base, vec![]);
    assert_eq!(player.nom, "Mage");
    assert_eq!(player.current_health, 80);
    assert_eq!(player.current_zone_id, 1);
    assert!(player.equipment.arme.is_none());
    assert_eq!(player.get_monster_kills(1), 0);
}
