use lau_git_world::commit_id::parse_commit_id;
use lau_git_world::diff::append_diff_line;
use lau_git_world::history::{history_for_path, history_from_walk, path_changed};
use lau_git_world::text::blob_text;
use lau_git_world::world::{
    copy_step, creation_commit_message, merge_outcome, meta_entity_type, meta_field, signature_email,
    update_commit_message, CopyStep, INIT_MESSAGE,
};
use lau_git_world::{CommitId, DiffLineKind, EntityType, HistoryEntry, RawCommit, WorldError};

fn id_of(fill: u8) -> CommitId {
    CommitId::from_bytes(&[fill; 20]).unwrap()
}

#[test]
fn commit_id_hex_is_lower_case() {
    let mut bytes = [0u8; 20];
    bytes[0] = 0xab;
    bytes[19] = 0x0f;
    let id = CommitId::from_bytes(&bytes).unwrap();
    assert_eq!(id.to_hex(), "ab0000000000000000000000000000000000000f");
}

#[test]
fn commit_id_needs_twenty_bytes() {
    assert!(CommitId::from_bytes(&[1u8; 19]).is_none());
    assert!(CommitId::from_bytes(&[1u8; 21]).is_none());
    assert_eq!(CommitId::from_bytes(&[7u8; 20]).unwrap().as_bytes(), &[7u8; 20]);
}

#[test]
fn commit_text_parses_to_bytes() {
    let id = parse_commit_id("0123456789abcdefABCDEF0123456789abcdef01").unwrap();
    assert_eq!(id.as_bytes()[0], 0x01);
    assert_eq!(id.as_bytes()[5], 0xab);
    assert_eq!(id.as_bytes()[9], 0xcd);
    assert_eq!(id.to_hex(), "0123456789abcdefabcdef0123456789abcdef01");
}

#[test]
fn short_commit_text_is_padded_with_zeros() {
    let id = parse_commit_id("abc").unwrap();
    let mut expected = [0u8; 20];
    expected[0] = 0xab;
    expected[1] = 0xc0;
    assert_eq!(id.as_bytes(), &expected);
}

#[test]
fn bad_commit_text_is_refused() {
    assert!(matches!(parse_commit_id(""), Err(WorldError::Git(_))));
    assert!(matches!(parse_commit_id("xyz"), Err(WorldError::Git(_))));
    assert!(matches!(
        parse_commit_id("0123456789abcdef0123456789abcdef012345678"),
        Err(WorldError::Git(_))
    ));
}

#[test]
fn hex_then_parse_gives_the_same_id() {
    let mut bytes = [0u8; 20];
    for (i, b) in bytes.iter_mut().enumerate() {
        *b = (i as u8).wrapping_mul(37);
    }
    let id = CommitId::from_bytes(&bytes).unwrap();
    let back = parse_commit_id(&id.to_hex()).unwrap();
    assert_eq!(back.as_bytes(), id.as_bytes());
}

#[test]
fn history_keeps_walk_order_and_drops_unreadable_commits() {
    let walk = vec![
        Some(RawCommit {
            id: id_of(1),
            message: Some("third".to_string()),
            seconds: 1_700_000_000,
            author: Some("alice".to_string()),
        }),
        None,
        Some(RawCommit { id: id_of(2), message: None, seconds: -5, author: None }),
    ];
    let log = history_from_walk(&walk);
    assert_eq!(log.len(), 2);
    assert_eq!(
        log[0],
        HistoryEntry {
            hash: "0101010101010101010101010101010101010101".to_string(),
            message: "third".to_string(),
            timestamp: 1_700_000_000,
            author: "alice".to_string(),
        }
    );
    assert_eq!(log[1].timestamp, 0);
    assert_eq!(log[1].message, "");
    assert_eq!(log[1].author, "");
    assert_eq!(log[1].hash, "0202020202020202020202020202020202020202");
}

#[test]
fn stored_text_reads_back() {
    assert_eq!(blob_text("Hello, Lau!".as_bytes()), "Hello, Lau!");
    assert_eq!(blob_text("deep content é".as_bytes()), "deep content é");
    assert_eq!(blob_text(&[b'a', 0xff, b'b']), "a\u{FFFD}b");
}

#[test]
fn diff_lines_are_marked() {
    let mut out = String::new();
    append_diff_line(&mut out, DiffLineKind::Deletion, b"version 1\n");
    append_diff_line(&mut out, DiffLineKind::Addition, b"version 2\n");
    append_diff_line(&mut out, DiffLineKind::Other, b"same\n");
    append_diff_line(&mut out, DiffLineKind::Addition, &[0xff, 0xfe]);
    assert_eq!(out, "-version 1\n+version 2\n same\n+");
}

#[test]
fn commit_messages() {
    assert_eq!(update_commit_message("a.txt"), "lau: update a.txt");
    assert_eq!(
        creation_commit_message(EntityType::World, "MyWorld"),
        "lau: create world 'MyWorld'"
    );
    assert_eq!(
        creation_commit_message(EntityType::Character, "Hero"),
        "lau: create character 'Hero'"
    );
    assert_eq!(signature_email("alice"), "alice@lau.world");
    assert_eq!(INIT_MESSAGE, "lau: init world repo");
}

#[test]
fn merge_refuses_conflicts() {
    assert!(matches!(merge_outcome(true, "experiment"), Err(WorldError::MergeConflict)));
    assert_eq!(
        merge_outcome(false, "experiment").unwrap(),
        "lau: merge branch 'experiment'"
    );
}

#[test]
fn fork_copy_skips_git_directory() {
    assert_eq!(copy_step(".git", true), CopyStep::Skip);
    assert_eq!(copy_step(".git", false), CopyStep::CopyFile);
    assert_eq!(copy_step("characters", true), CopyStep::Descend);
    assert_eq!(copy_step("data.txt", false), CopyStep::CopyFile);
}

#[test]
fn meta_fields_are_read_from_json() {
    let text = r#"{"entity_type":"character","name":"Hero","owner":"alice","level":3}"#;
    assert_eq!(meta_field(text, "name").unwrap(), "Hero");
    assert_eq!(meta_field(text, "owner").unwrap(), "alice");
    assert_eq!(meta_field(text, "level").unwrap(), "");
    assert_eq!(meta_field(text, "missing").unwrap(), "");
    assert!(matches!(meta_field("{not json", "name"), Err(WorldError::Json(_))));
}

#[test]
fn commit_id_hex_matches_git() {
    let mut bytes = [0u8; 20];
    for (i, b) in bytes.iter_mut().enumerate() {
        *b = (i as u8).wrapping_mul(73).wrapping_add(5);
    }
    let oid = git2::Oid::from_bytes(&bytes).unwrap();
    assert_eq!(CommitId::from_bytes(&bytes).unwrap().to_hex(), oid.to_string());
}

fn commit_with(fill: u8, message: &str) -> Option<RawCommit> {
    Some(RawCommit {
        id: id_of(fill),
        message: Some(message.to_string()),
        seconds: 10,
        author: Some("bob".to_string()),
    })
}

#[test]
fn path_history_keeps_only_commits_that_change_the_path() {
    let walk = vec![
        commit_with(3, "third"),
        commit_with(2, "second"),
        None,
        commit_with(1, "first"),
    ];
    let touches = vec![true, false, true, true];
    let log = history_for_path("a.txt", &walk, &touches);
    let messages: Vec<&str> = log.iter().map(|e| e.message.as_str()).collect();
    assert_eq!(messages, vec!["third", "first"]);
    let whole = history_for_path("", &walk, &touches);
    assert_eq!(whole.len(), 3);
    assert_eq!(whole, history_from_walk(&walk));
}

#[test]
fn path_changes_are_detected() {
    assert!(!path_changed(&None, &None));
    assert!(path_changed(&Some(vec![1, 2]), &None));
    assert!(path_changed(&None, &Some(vec![1, 2])));
    assert!(!path_changed(&Some(vec![1, 2]), &Some(vec![1, 2])));
    assert!(path_changed(&Some(vec![1, 2]), &Some(vec![1, 3])));
    assert!(path_changed(&Some(vec![1, 2]), &Some(vec![1])));
}

#[test]
fn entity_type_is_read_from_meta() {
    let text = r#"{"entity_type":"place","name":"Forest","owner":"bob"}"#;
    assert_eq!(meta_entity_type(text).unwrap(), EntityType::Place);
    match meta_entity_type(r#"{"entity_type":"castle"}"#) {
        Err(WorldError::Json(e)) => assert!(e.to_string().contains("unknown variant `castle`")),
        Err(e) => panic!("castle refused with {e:?}"),
        Ok(t) => panic!("castle read as {t:?}"),
    }
    assert!(matches!(meta_entity_type(r#"{"name":"x"}"#), Err(WorldError::Json(_))));
    assert!(matches!(meta_entity_type(r#"{"entity_type":3}"#), Err(WorldError::Json(_))));
    assert!(matches!(meta_entity_type("not json"), Err(WorldError::Json(_))));
}
