use rpg::attributes::Attributes;
use rpg::rng::Rng;

#[test]
fn test_apply_delta_componentwise() {
    let mut a = Attributes::new(10, 20, 30, 40);
    let delta = Attributes::new(1, -2, 3, -4);
    a.apply_delta(&delta);
    assert_eq!(a.health, 11);
    assert_eq!(a.strength, 18);
    assert_eq!(a.defense, 33);
    assert_eq!(a.agility, 36);
}

#[test]
fn test_apply_delta_commutes() {
    // L'ordre des deux opérandes ne change pas le résultat.
    let mut ab = Attributes::new(5, 6, 7, 8);
    ab.apply_delta(&Attributes::new(-1, 2, -3, 4));
    let mut ba = Attributes::new(-1, 2, -3, 4);
    ba.apply_delta(&Attributes::new(5, 6, 7, 8));
    assert_eq!(ab.health, ba.health);
    assert_eq!(ab.strength, ba.strength);
    assert_eq!(ab.defense, ba.defense);
    assert_eq!(ab.agility, ba.agility);
}

#[test]
fn test_apply_delta_identity() {
    // Le delta nul ne change rien.
    let mut a = Attributes::new(9, -8, 7, 0);
    a.apply_delta(&Attributes::new(0, 0, 0, 0));
    assert_eq!(a.health, 9);
    assert_eq!(a.strength, -8);
    assert_eq!(a.defense, 7);
    assert_eq!(a.agility, 0);
}

#[test]
fn test_rng_rolls_are_percentages() {
    let mut rng = Rng::new(123456789);
    for _ in 0..1000 {
        let roll = rng.roll_percent();
        assert!(roll < 100);
    }
}

#[test]
fn test_rng_is_deterministic() {
    let mut a = Rng::new(99);
    let mut b = Rng::new(99);
    for _ in 0..20 {
        assert_eq!(a.roll_percent(), b.roll_percent());
    }
}
