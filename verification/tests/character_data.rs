use lau_git_world::CharacterData;

#[test]
fn test_character_level_up() {
    let mut data = CharacterData::named("Hero");
    data.level_up();
    data.level_up();
    assert_eq!(data.level, 3);
}

#[test]
fn test_character_learn_skill() {
    let mut data = CharacterData::named("Hero");
    data.learn_skill("fireball");
    data.learn_skill("heal");
    assert!(data.abilities.contains(&"fireball".to_string()));
    assert!(data.abilities.contains(&"heal".to_string()));
}

#[test]
fn test_character_learn_skill_idempotent() {
    let mut data = CharacterData::named("Hero");
    data.learn_skill("fireball");
    data.learn_skill("fireball");
    assert_eq!(data.abilities.len(), 1);
}

#[test]
fn test_character_equip() {
    let mut data = CharacterData::named("Hero");
    data.equip("/tools/sword");
    assert!(data.inventory.contains(&"/tools/sword".to_string()));
}

#[test]
fn new_character_has_its_name_and_level_one() {
    let data = CharacterData::named("Hero");
    assert_eq!(data.name, "Hero");
    assert_eq!(data.level, 1);
    assert!(data.abilities.is_empty());
    assert!(data.inventory.is_empty());
    assert!(data.personality_traits.is_empty());
    assert_eq!(data.appearance, "");
}

#[test]
fn default_character_is_level_one() {
    let data = CharacterData::default();
    assert_eq!(data.name, "");
    assert_eq!(data.level, 1);
}

#[test]
fn character_messages_record_the_actions() {
    let mut data = CharacterData::named("Hero");
    assert_eq!(data.creation_message(), "lau: create character 'Hero'");
    let up = data.level_up();
    let learned = data.learn_skill("jump");
    let equipped = data.equip("/tools/rope");
    assert_eq!(up, "lau: Hero reached level 2");
    assert!(up.contains("level 2"));
    assert_eq!(learned, "lau: Hero learned 'jump'");
    assert!(learned.contains("learned"));
    assert_eq!(equipped, "lau: Hero equipped '/tools/rope'");
}

#[test]
fn level_message_has_all_digits() {
    let mut data = CharacterData::named("Sage");
    data.level = 9;
    assert_eq!(data.level_up(), "lau: Sage reached level 10");
    data.level = 4_294_967_294;
    assert_eq!(data.level_up(), "lau: Sage reached level 4294967295");
    assert_eq!(data.level, u32::MAX);
}

#[test]
fn learning_a_known_skill_still_gives_a_message() {
    let mut data = CharacterData::named("Hero");
    data.learn_skill("fireball");
    let before = data.clone();
    let m = data.learn_skill("fireball");
    assert_eq!(m, "lau: Hero learned 'fireball'");
    assert_eq!(data, before);
}

#[test]
fn learning_keeps_order_and_other_fields() {
    let mut data = CharacterData::named("Hero");
    data.learn_skill("a");
    data.learn_skill("b");
    data.learn_skill("a");
    data.learn_skill("c");
    assert_eq!(data.abilities, vec!["a".to_string(), "b".to_string(), "c".to_string()]);
    assert_eq!(data.level, 1);
    assert!(data.knows("b"));
    assert!(!data.knows("d"));
}

#[test]
fn equip_appends_even_duplicates() {
    let mut data = CharacterData::named("Hero");
    data.equip("/tools/sword");
    data.equip("/tools/sword");
    assert_eq!(data.inventory.len(), 2);
}
