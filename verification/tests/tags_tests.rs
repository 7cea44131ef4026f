use tilequest::inventory::{Collectable, Potion, Weapon};
use tilequest::tags::{
    classify_object, parse_collectable_name, parse_portal_requirement, parse_potion_name,
    parse_weapon_name, split_commas, str_eq, tile_user_class_to_component, CollectableKind,
    ObjectClass, ObstacleType,
};

#[test]
fn str_eq_compares_exactly() {
    assert!(str_eq("Player", "Player"));
    assert!(!str_eq("Player", "player"));
    assert!(!str_eq("Player", "Players"));
    assert!(str_eq("", ""));
}

#[test]
fn split_commas_keeps_every_segment() {
    let parts = split_commas("Red potion,Hammer");
    assert_eq!(parts, vec!["Red potion".to_string(), "Hammer".to_string()]);
    assert_eq!(split_commas(""), vec!["".to_string()]);
    assert_eq!(
        split_commas("a,,b"),
        vec!["a".to_string(), "".to_string(), "b".to_string()],
    );
    assert_eq!(split_commas("solo"), vec!["solo".to_string()]);
}

#[test]
fn potion_names_decode_to_their_kinds() {
    assert_eq!(parse_potion_name("Green potion"), Some(Potion::Green));
    assert_eq!(parse_potion_name("Red potion"), Some(Potion::Red));
    assert_eq!(parse_potion_name("Blue potion"), Some(Potion::Blue));
    assert_eq!(parse_potion_name("Purple potion"), None);
}

#[test]
fn weapon_names_decode_to_their_kinds() {
    assert_eq!(parse_weapon_name("Hammer"), Some(Weapon::Hammer));
    assert_eq!(parse_weapon_name("Axe"), Some(Weapon::Axe));
    assert_eq!(parse_weapon_name("Sword"), Some(Weapon::Sword));
    assert_eq!(parse_weapon_name("Spear"), None);
}

#[test]
fn collectable_names_cover_both_categories() {
    assert_eq!(
        parse_collectable_name("Blue potion"),
        Some(CollectableKind::Consumable(Collectable(Potion::Blue))),
    );
    assert_eq!(
        parse_collectable_name("Sword"),
        Some(CollectableKind::Equipment(Collectable(Weapon::Sword))),
    );
    assert_eq!(parse_collectable_name("Shield"), None);
}

#[test]
fn portal_requirement_fills_both_slots_from_the_name() {
    let inv = parse_portal_requirement("Green potion,Sword");
    assert_eq!(inv.potion, Some(Collectable(Potion::Green)));
    assert_eq!(inv.weapon, Some(Collectable(Weapon::Sword)));
}

#[test]
fn portal_requirement_ignores_unknown_tokens_and_keeps_the_last() {
    let inv = parse_portal_requirement("Mystery,Red potion,Blue potion,Hammer");
    assert_eq!(inv.potion, Some(Collectable(Potion::Blue)));
    assert_eq!(inv.weapon, Some(Collectable(Weapon::Hammer)));
    let empty = parse_portal_requirement("");
    assert_eq!(empty.potion, None);
    assert_eq!(empty.weapon, None);
}

#[test]
fn object_classes_decode_to_the_closed_set() {
    assert_eq!(classify_object(&Some("Player".to_string())), ObjectClass::Player);
    assert_eq!(classify_object(&Some("Portal".to_string())), ObjectClass::Portal);
    assert_eq!(classify_object(&Some("PortalTunnel".to_string())), ObjectClass::Portal);
    assert_eq!(classify_object(&Some("Collectable".to_string())), ObjectClass::Collectable);
    assert_eq!(classify_object(&Some("Scenery".to_string())), ObjectClass::Unknown);
    assert_eq!(classify_object(&None), ObjectClass::Unknown);
}

#[test]
fn tile_user_classes_decode_to_the_closed_set() {
    assert_eq!(tile_user_class_to_component(&Some("Chest".to_string())), ObstacleType::Chest);
    assert_eq!(tile_user_class_to_component(&Some("Potion".to_string())), ObstacleType::Potion);
    assert_eq!(tile_user_class_to_component(&Some("Door".to_string())), ObstacleType::Door);
    assert_eq!(
        tile_user_class_to_component(&Some("Tombstone".to_string())),
        ObstacleType::Tombstone,
    );
    assert_eq!(tile_user_class_to_component(&Some("Grave".to_string())), ObstacleType::Grave);
    assert_eq!(tile_user_class_to_component(&Some("Fountain".to_string())), ObstacleType::Fountain);
    assert_eq!(tile_user_class_to_component(&Some("Wall".to_string())), ObstacleType::Wall);
    assert_eq!(
        tile_user_class_to_component(&Some("Lantern".to_string())),
        ObstacleType::Unclassified,
    );
    assert_eq!(tile_user_class_to_component(&None), ObstacleType::Unclassified);
}
