use lau_git_world::error::expect_entity_type;
use lau_git_world::{EntityType, WorldError};

#[test]
fn test_entity_type_dir_names() {
    assert_eq!(EntityType::Character.dir_name(), "characters");
    assert_eq!(EntityType::Place.dir_name(), "places");
    assert_eq!(EntityType::Tool.dir_name(), "tools");
    assert_eq!(EntityType::Quest.dir_name(), "quests");
    assert_eq!(EntityType::World.dir_name(), "world");
    assert_eq!(EntityType::Inventory.dir_name(), "inventories");
}

#[test]
fn dir_names_are_all_different() {
    let all = [
        EntityType::Character,
        EntityType::Place,
        EntityType::Tool,
        EntityType::Quest,
        EntityType::World,
        EntityType::Inventory,
    ];
    for (i, a) in all.iter().enumerate() {
        for (j, b) in all.iter().enumerate() {
            if i != j {
                assert_ne!(a.dir_name(), b.dir_name());
            }
        }
    }
}

#[test]
fn opening_as_the_right_kind_is_accepted() {
    assert!(expect_entity_type(EntityType::Character, EntityType::Character).is_ok());
    assert!(expect_entity_type(EntityType::Place, EntityType::Place).is_ok());
}

#[test]
fn opening_as_the_wrong_kind_is_refused() {
    match expect_entity_type(EntityType::Character, EntityType::Place) {
        Err(e) => {
            assert!(matches!(e, WorldError::WrongEntityType(EntityType::Place)));
            assert_eq!(e.text(), "not a place repo");
        }
        Ok(()) => panic!("a character repo opened as a place"),
    }
    match expect_entity_type(EntityType::World, EntityType::Character) {
        Err(e) => assert_eq!(e.text(), "not a character repo"),
        Ok(()) => panic!("a world repo opened as a character"),
    }
}

#[test]
fn error_texts() {
    assert_eq!(WorldError::NoHead.text(), "no HEAD");
    assert_eq!(WorldError::BranchHasNoTarget.text(), "branch has no target");
    assert_eq!(WorldError::MergeConflict.text(), "merge conflict");
    assert_eq!(
        WorldError::FileNotFound("a/b.txt".to_string()).text(),
        "file not found in repo: a/b.txt"
    );
    assert_eq!(
        WorldError::WrongEntityType(EntityType::Inventory).text(),
        "not a inventory repo"
    );
}

#[test]
fn kind_words_read_back() {
    let all = [
        EntityType::Character,
        EntityType::Place,
        EntityType::Tool,
        EntityType::Quest,
        EntityType::World,
        EntityType::Inventory,
    ];
    for t in all {
        assert_eq!(EntityType::from_name(t.kind_word()), Some(t));
    }
    assert_eq!(EntityType::Inventory.kind_word(), "inventory");
    assert_eq!(EntityType::from_name("Character"), None);
    assert_eq!(EntityType::from_name(""), None);
}
