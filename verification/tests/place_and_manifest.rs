use base64::Engine;
use lau_git_world::{PlaceData, WorldManifest};

#[test]
fn test_place_build_room() {
    let mut place = PlaceData::named("Castle");
    let voxel_data = vec![0u8, 1, 2, 3, 4, 5];
    place.build_room("throne", &voxel_data);
    assert_eq!(place.rooms.len(), 1);
    assert_eq!(place.rooms[0].id, "throne");
    assert_eq!(
        place.rooms[0].data,
        base64::engine::general_purpose::STANDARD.encode(&voxel_data)
    );
}

#[test]
fn build_room_stores_base64_not_raw_bytes() {
    let mut place = PlaceData::named("Castle");
    let m = place.build_room("throne", &[0u8, 1, 2, 3, 4, 5]);
    assert_eq!(place.rooms[0].data, "AAECAwQF");
    assert_eq!(m, "lau: built room 'throne'");
    place.build_room("empty", &[]);
    assert_eq!(place.rooms[1].data, "");
    place.build_room("one", b"M");
    assert_eq!(place.rooms[2].data, "TQ==");
}

#[test]
fn test_place_connect_to() {
    let mut place = PlaceData::named("Village");
    place.connect_to("/places/forest");
    place.connect_to("/places/mountain");
    assert_eq!(place.connections.len(), 2);
    assert!(place.connections.contains(&"/places/forest".to_string()));
}

#[test]
fn test_place_multiple_rooms() {
    let mut place = PlaceData::named("Dungeon");
    place.build_room("entrance", &[1, 2, 3]);
    place.build_room("boss", &[4, 5, 6]);
    place.build_room("treasure", &[7, 8, 9]);
    assert_eq!(place.rooms.len(), 3);
}

#[test]
fn new_place_is_empty_and_named() {
    let place = PlaceData::named("Forest");
    assert_eq!(place.name, "Forest");
    assert!(place.rooms.is_empty());
    assert!(place.connections.is_empty());
    assert!(place.npcs.is_empty());
    assert_eq!(place.creation_message(), "lau: create place 'Forest'");
}

#[test]
fn connect_message() {
    let mut place = PlaceData::named("Village");
    assert_eq!(place.connect_to("/places/forest"), "lau: connected to '/places/forest'");
}

#[test]
fn add_encoded_room_keeps_the_text() {
    let mut place = PlaceData::named("Hall");
    place.add_encoded_room("attic", "AQID".to_string());
    assert_eq!(place.rooms[0].id, "attic");
    assert_eq!(place.rooms[0].data, "AQID");
}

#[test]
fn new_manifest_lists_nothing() {
    let manifest = WorldManifest::new("MyWorld");
    assert_eq!(manifest.name, "MyWorld");
    assert!(manifest.characters.is_empty());
    assert!(manifest.places.is_empty());
    assert!(manifest.tools.is_empty());
    assert!(manifest.quests.is_empty());
}

#[test]
fn manifest_registers_in_order() {
    let mut manifest = WorldManifest::new("MyWorld");
    manifest.add_character("/characters/hero");
    manifest.add_place("/places/forest");
    manifest.add_place("/places/castle");
    manifest.add_tool("/tools/sword");
    assert_eq!(manifest.characters, vec!["/characters/hero".to_string()]);
    assert_eq!(manifest.places, vec!["/places/forest".to_string(), "/places/castle".to_string()]);
    assert_eq!(manifest.tools.len(), 1);
    assert!(manifest.quests.is_empty());
}

#[test]
fn default_place_is_empty() {
    let place = PlaceData::default();
    assert_eq!(place, PlaceData::named(""));
    assert!(place.rooms.is_empty());
}
