use mining_core::objects::{GemKind, KeyColor, Object};

#[test]
fn test_from_tile_number_ranges() {
    assert_eq!(
        Object::from_tile_number(0).unwrap(),
        Object::Dirt { north: false, east: false, south: false, west: false },
    );
    assert_eq!(
        Object::from_tile_number(32).unwrap(),
        Object::Dirt { north: false, east: false, south: false, west: false },
    );
    assert_eq!(
        Object::from_tile_number(16).unwrap(),
        Object::Wall { north: false, east: false, south: false, west: false },
    );
    assert_eq!(Object::from_tile_number(34).unwrap(), Object::Empty);
    assert_eq!(Object::from_tile_number(189).unwrap(), Object::Empty);
    assert_eq!(Object::from_tile_number(35).unwrap(), Object::Door { frame_offset: 0 });
    assert_eq!(Object::from_tile_number(39).unwrap(), Object::Brick);
    assert_eq!(
        Object::from_tile_number(45).unwrap(),
        Object::Key { color: KeyColor::Yellow, frame_offset: 5 },
    );
    assert_eq!(
        Object::from_tile_number(46).unwrap(),
        Object::Key { color: KeyColor::Red, frame_offset: 0 },
    );
    assert_eq!(
        Object::from_tile_number(57).unwrap(),
        Object::Key { color: KeyColor::Grey, frame_offset: 5 },
    );
    assert_eq!(Object::from_tile_number(60).unwrap(), Object::Pickaxe { frame_offset: 2 });
    assert_eq!(
        Object::from_tile_number(64).unwrap(),
        Object::Gem { kind: GemKind::Gem1, frame_offset: 0 },
    );
    assert_eq!(
        Object::from_tile_number(75).unwrap(),
        Object::Gem { kind: GemKind::Gem2, frame_offset: 5 },
    );
    assert_eq!(
        Object::from_tile_number(81).unwrap(),
        Object::Gem { kind: GemKind::Gem3, frame_offset: 5 },
    );
    assert_eq!(Object::from_tile_number(82).unwrap(), Object::Letter { tile_index: 82 });
    assert_eq!(Object::from_tile_number(191).unwrap(), Object::Letter { tile_index: 191 });
    assert_eq!(Object::from_tile_number(118).unwrap(), Object::Boulder);
    assert_eq!(Object::from_tile_number(119).unwrap(), Object::Balloon);
    assert_eq!(Object::from_tile_number(121).unwrap(), Object::AirshipLeft { frame_offset: 1 });
    assert_eq!(Object::from_tile_number(131).unwrap(), Object::AirshipRight { frame_offset: 5 });
    assert_eq!(Object::from_tile_number(132).unwrap(), Object::Player);
    assert_eq!(Object::from_tile_number(161).unwrap(), Object::Player);
    assert_eq!(Object::from_tile_number(162).unwrap(), Object::Enemy);
    assert_eq!(Object::from_tile_number(186).unwrap(), Object::Lock { color: KeyColor::Yellow });
    assert_eq!(Object::from_tile_number(188).unwrap(), Object::Lock { color: KeyColor::Grey });
}

#[test]
fn test_from_tile_number_invalid() {
    let error = Object::from_tile_number(200).unwrap_err();
    assert_eq!(error, "invalid sprite number 200");
    let error = Object::from_tile_number(192).unwrap_err();
    assert_eq!(error, "invalid sprite number 192");
    let error = Object::from_tile_number(255).unwrap_err();
    assert_eq!(error, "invalid sprite number 255");
}

#[test]
fn test_tile_number_edge_masks() {
    let dirt = Object::Dirt { north: true, east: false, south: false, west: true };
    assert_eq!(dirt.tile_number(0), 1 + 8);
    let wall = Object::Wall { north: false, east: true, south: true, west: false };
    assert_eq!(wall.tile_number(7), 16 + 2 + 4);
}

#[test]
fn test_tile_number_animation() {
    // frame = (offset + tick) % 6 on top of the variant's base index
    let key = Object::Key { color: KeyColor::Red, frame_offset: 2 };
    assert_eq!(key.tile_number(10), 46);
    assert_eq!(key.tile_number(1), 46 + 3);
    let pickaxe = Object::Pickaxe { frame_offset: 5 };
    assert_eq!(pickaxe.tile_number(0), 58 + 5);
    let gem = Object::Gem { kind: GemKind::Gem3, frame_offset: 0 };
    assert_eq!(gem.tile_number(4), 76 + 4);
    let airship = Object::AirshipRight { frame_offset: 3 };
    assert_eq!(airship.tile_number(11), 126 + 2);
}

#[test]
fn test_tile_number_fixed_variants() {
    assert_eq!(Object::Empty.tile_number(3), 34);
    assert_eq!(Object::Door { frame_offset: 0 }.tile_number(3), 35);
    assert_eq!(Object::Brick.tile_number(3), 39);
    assert_eq!(Object::Letter { tile_index: 190 }.tile_number(3), 190);
    assert_eq!(Object::Boulder.tile_number(3), 118);
    assert_eq!(Object::Balloon.tile_number(3), 119);
    assert_eq!(Object::Player.tile_number(3), 156);
    assert_eq!(Object::Enemy.tile_number(3), 180);
    assert_eq!(Object::Lock { color: KeyColor::Red }.tile_number(3), 187);
}

#[test]
fn test_round_trip_keeps_the_variant() {
    // every valid tile index decodes, displays, and decodes again to the
    // same variant
    for index in 0u8..=191 {
        let object = Object::from_tile_number(index).unwrap();
        for tick in 0u8..12 {
            let shown = object.tile_number(tick);
            let back = Object::from_tile_number(shown).unwrap();
            assert_eq!(
                std::mem::discriminant(&object),
                std::mem::discriminant(&back),
                "index {} tick {}",
                index,
                tick,
            );
        }
    }
}

#[test]
fn test_transparency_and_entry_flags() {
    assert!(Object::Player.is_transparent());
    assert!(Object::Boulder.is_transparent());
    assert!(Object::Gem { kind: GemKind::Gem1, frame_offset: 0 }.is_transparent());
    assert!(!Object::Empty.is_transparent());
    assert!(!Object::Dirt { north: false, east: false, south: false, west: false }.is_transparent());
    assert!(!Object::Brick.is_transparent());

    assert!(Object::Empty.can_be_entered());
    assert!(Object::Dirt { north: false, east: false, south: false, west: false }.can_be_entered());
    assert!(Object::Letter { tile_index: 82 }.can_be_entered());
    assert!(!Object::Wall { north: false, east: false, south: false, west: false }.can_be_entered());
    assert!(!Object::Boulder.can_be_entered());
    assert!(!Object::Player.can_be_entered());
    assert!(!Object::Lock { color: KeyColor::Grey }.can_be_entered());
}
