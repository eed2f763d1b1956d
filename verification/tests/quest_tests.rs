use rpg::quest::Quest;

#[test]
fn test_new_without_object() {
    let quest = Quest::new(1, "TestQuest".into(), "Une quête de test".into(), None);
    assert_eq!(quest.id, 1);
    assert_eq!(quest.name, "TestQuest");
    assert_eq!(quest.description, "Une quête de test");
    assert_eq!(quest.objet_requis_id, None);
    assert!(!quest.is_completed());
    assert!(!quest.requires_object());
}

#[test]
fn test_new_with_object() {
    let quest = Quest::new(2, "ObjetQuest".into(), "Quête avec objet".into(), Some(42));
    assert_eq!(quest.id, 2);
    assert_eq!(quest.objet_requis_id, Some(42));
    assert!(quest.requires_object());
    assert_eq!(quest.required_object_id(), Some(42));
}

#[test]
fn test_complete_and_reset() {
    let mut quest = Quest::new(3, "StateQuest".into(), "Test état".into(), None);
    assert!(!quest.is_completed());
    quest.complete();
    assert!(quest.is_completed());
    quest.reset();
    assert!(!quest.is_completed());
}

#[test]
fn test_quest_duplicate_is_equal() {
    let mut quest = Quest::new(4, "CopieQuest".into(), "Test copie".into(), Some(7));
    quest.complete();
    let copy = quest.duplicate();
    assert_eq!(quest, copy);
}
