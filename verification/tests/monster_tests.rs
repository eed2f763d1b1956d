use rpg::monster::{calculate_damage, calculate_hit_chance, check_dodge, Monster, MonsterRaw};
use rpg::rng::Rng;

fn creer_monstre_test() -> Monster {
    Monster {
        id: 1,
        name: "Squelette".to_string(),
        description: "Un squelette animé".to_string(),
        max_health: 80,
        current_health: 80,
        strength: 15,
        defense: 8,
        agility: 5,
        loot: vec![10, 11],
        experience: 45,
    }
}

#[test]
fn monster_test_creation_depuis_raw() {
    let raw = MonsterRaw {
        id: 2,
        name: "Orc Guerrier".to_string(),
        description: "Un orc massif avec une hache".to_string(),
        health: 120,
        strength: 18,
        defense: 10,
        agility: 3,
        loot: vec![15, 16, 17],
        experience: 60,
    };

    let monstre = Monster::from_raw(raw);
    assert_eq!(monstre.name, "Orc Guerrier");
    assert_eq!(monstre.max_health, 120);
    assert_eq!(monstre.current_health, 120);
    assert_eq!(monstre.strength, 18);
    assert_eq!(monstre.loot.len(), 3);
}

#[test]
fn test_systeme_vie() {
    let mut monstre = creer_monstre_test();

    assert!(monstre.is_alive());

    monstre.take_damage(30);
    assert_eq!(monstre.current_health, 50);
    assert!(monstre.is_alive());

    monstre.take_damage(100); // Plus que la santé restante
    assert_eq!(monstre.current_health, 0);
    assert!(!monstre.is_alive());
}

#[test]
fn test_barre_de_vie() {
    let mut monstre = creer_monstre_test();

    let barre_pleine = monstre.health_bar();
    assert!(barre_pleine.contains("█"));
    assert!(barre_pleine.contains("80/80 HP"));

    monstre.current_health = 40; // 50%
    let barre_moitie = monstre.health_bar();
    assert!(barre_moitie.contains("█"));
    assert!(barre_moitie.contains("░"));
    assert!(barre_moitie.contains("40/80 HP"));

    monstre.current_health = 0;
    let barre_vide = monstre.health_bar();
    assert!(barre_vide.contains("░"));
    assert!(barre_vide.contains("0/80 HP"));
}

#[test]
fn test_barre_de_vie_exacte() {
    let mut monstre = creer_monstre_test();
    assert_eq!(monstre.health_bar(), "[████████████████████] 80/80 HP");
    monstre.current_health = 40;
    assert_eq!(monstre.health_bar(), "[██████████░░░░░░░░░░] 40/80 HP");
    monstre.current_health = 0;
    assert_eq!(monstre.health_bar(), "[░░░░░░░░░░░░░░░░░░░░] 0/80 HP");
}

#[test]
fn test_barre_de_vie_sante_negative() {
    let mut monstre = creer_monstre_test();
    monstre.current_health = -5;
    assert_eq!(monstre.health_bar(), "[░░░░░░░░░░░░░░░░░░░░] -5/80 HP");
}

#[test]
fn test_calcul_degats() {
    assert_eq!(calculate_damage(20, 5), 15); // Attaque normale
    assert_eq!(calculate_damage(10, 12), 1); // Défense supérieure → dégâts min
    assert_eq!(calculate_damage(25, 25), 1); // Force égale défense → dégâts min
}

#[test]
fn test_systeme_esquive() {
    // Test avec agilité 0 - aucune esquive
    let mut rng = Rng::new(7);
    let mut esquives = 0;
    for _ in 0..50 {
        if check_dodge(0, rng.roll_percent()) {
            esquives += 1;
        }
    }
    assert_eq!(esquives, 0);

    // Test avec agilité très élevée
    let mut esquives_elevees = 0;
    for _ in 0..200 {
        if check_dodge(20, rng.roll_percent()) {
            // 20 * 2 = 40%, mais plafonné à 30%
            esquives_elevees += 1;
        }
    }
    // Environ 30% d'esquives attendues
    assert!(esquives_elevees > 40 && esquives_elevees < 80);
}

#[test]
fn test_precision_attaque() {
    let mut rng = Rng::new(42);
    let mut touches = 0;
    for _ in 0..100 {
        if calculate_hit_chance(rng.roll_percent()) {
            touches += 1;
        }
    }
    // Environ 90% de touches attendues
    assert!(touches > 80 && touches <= 100);
}

#[test]
fn test_esquive_bornes() {
    // Sous le seuil: esquive; au seuil: pas d'esquive.
    assert!(check_dodge(20, 29)); // seuil plafonné à 30
    assert!(!check_dodge(20, 30));
    assert!(check_dodge(5, 9)); // 2 × 5 = 10
    assert!(!check_dodge(5, 10));
    assert!(!check_dodge(-3, 0)); // agilité négative: jamais d'esquive
    assert!(calculate_hit_chance(89));
    assert!(!calculate_hit_chance(90));
}
