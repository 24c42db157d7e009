use mining_core::level::{load_level, Direction, Level};
use mining_core::objects::Object;
use mining_core::simulation::{
    advance_tick, move_player_if_possible, next_tick, resolve_adjacency, Intents,
};

const EMPTY: u8 = 34;
const DIRT: u8 = 0;
const WALL: u8 = 16;
const BRICK: u8 = 39;
const PLAYER: u8 = 156;
const BOULDER: u8 = 118;

fn no_intents() -> Intents {
    Intents { left: false, right: false, up: false, down: false }
}

fn make_level(width: u8, height: u8, data: &[u8]) -> Level {
    let mut bytes = vec![width, 0, height, 0];
    bytes.extend_from_slice(data);
    let mut level = load_level(&bytes).unwrap();
    resolve_adjacency(&mut level);
    level
}

#[test]
fn test_wall_adjacency() {
    // a wall with a wall to its north and non-wall everywhere else
    let level = make_level(3, 3, &[
        EMPTY, WALL, EMPTY,
        BRICK, WALL, EMPTY,
        EMPTY, DIRT, EMPTY,
    ]);
    match level.cell(1, 1).unwrap().object {
        Some(Object::Wall { north, east, south, west }) => {
            assert!(!north);
            assert!(east);
            assert!(south);
            assert!(west);
        },
        other => panic!("expected a wall, got {:?}", other),
    }
}

#[test]
fn test_dirt_adjacency() {
    // a dirt edge opens exactly toward transparent neighbors: the player
    // to the west and the boulder to the north are transparent, the
    // bricks east and south are not
    let level = make_level(3, 3, &[
        EMPTY, BOULDER, EMPTY,
        PLAYER, DIRT, BRICK,
        EMPTY, BRICK, EMPTY,
    ]);
    match level.cell(1, 1).unwrap().object {
        Some(Object::Dirt { north, east, south, west }) => {
            assert!(north);
            assert!(!east);
            assert!(!south);
            assert!(west);
        },
        other => panic!("expected dirt, got {:?}", other),
    }
}

#[test]
fn test_border_edges_stay_closed() {
    // a lone dirt cell has no neighbors at all: every edge keeps its
    // loaded value, closed
    let level = make_level(1, 1, &[DIRT]);
    match level.cell(0, 0).unwrap().object {
        Some(Object::Dirt { north, east, south, west }) => {
            assert!(!north && !east && !south && !west);
        },
        other => panic!("expected dirt, got {:?}", other),
    }
}

#[test]
fn test_player_moves_left() {
    // a left intent moves the player one cell west, entering from the
    // east, and the following empty tick settles the slide
    let mut level = make_level(4, 3, &[
        EMPTY, EMPTY, EMPTY, EMPTY,
        EMPTY, EMPTY, EMPTY, EMPTY,
        EMPTY, EMPTY, PLAYER, EMPTY,
    ]);
    advance_tick(&mut level, Intents { left: true, ..no_intents() });
    let source = *level.cell(2, 2).unwrap();
    assert_eq!(source.object, None);
    assert!(source.post_occupied);
    let destination = *level.cell(1, 2).unwrap();
    assert_eq!(destination.object, Some(Object::Player));
    assert!(destination.pre_occupied);
    assert_eq!(destination.moving_in_from, Some(Direction::East));
    assert!(!destination.changed_in_current_tick);

    advance_tick(&mut level, no_intents());
    let settled = *level.cell(1, 2).unwrap();
    assert_eq!(settled.object, Some(Object::Player));
    assert_eq!(settled.moving_in_from, None);
    assert_eq!(level.cell(2, 2).unwrap().object, None);
    assert_eq!(level.cell(0, 2).unwrap().object, None);
}

#[test]
fn test_player_blocked_by_wall() {
    let mut level = make_level(3, 1, &[WALL, PLAYER, EMPTY]);
    advance_tick(&mut level, Intents { left: true, ..no_intents() });
    assert_eq!(level.cell(1, 0).unwrap().object, Some(Object::Player));
    assert_eq!(level.cell(1, 0).unwrap().moving_in_from, None);
}

#[test]
fn test_player_stopped_at_border() {
    let mut level = make_level(2, 1, &[PLAYER, EMPTY]);
    advance_tick(&mut level, Intents { left: true, ..no_intents() });
    assert_eq!(level.cell(0, 0).unwrap().object, Some(Object::Player));
}

#[test]
fn test_intent_priority_left_before_down() {
    let mut level = make_level(3, 2, &[
        EMPTY, PLAYER, EMPTY,
        EMPTY, EMPTY, EMPTY,
    ]);
    advance_tick(&mut level, Intents { left: true, down: true, ..no_intents() });
    assert_eq!(level.cell(0, 0).unwrap().object, Some(Object::Player));
    assert_eq!(level.cell(1, 1).unwrap().object, None);
}

#[test]
fn test_player_picks_up_pickaxe() {
    // moving onto a collectible discards it
    let pickaxe = 58u8;
    let mut level = make_level(2, 1, &[PLAYER, pickaxe]);
    advance_tick(&mut level, Intents { right: true, ..no_intents() });
    let destination = *level.cell(1, 0).unwrap();
    assert_eq!(destination.object, Some(Object::Player));
    assert_eq!(destination.moving_in_from, Some(Direction::West));
    assert_eq!(level.cell(0, 0).unwrap().object, None);
}

#[test]
fn test_moved_player_is_not_moved_twice() {
    // a player moving right enters a cell the scan has not reached yet;
    // the change flag keeps it from moving again within the same tick
    let mut level = make_level(3, 1, &[PLAYER, EMPTY, EMPTY]);
    advance_tick(&mut level, Intents { right: true, ..no_intents() });
    assert_eq!(level.cell(0, 0).unwrap().object, None);
    assert_eq!(level.cell(1, 0).unwrap().object, Some(Object::Player));
    assert_eq!(level.cell(2, 0).unwrap().object, None);
}

#[test]
fn test_empty_tick_is_idempotent() {
    let mut level = make_level(3, 2, &[
        DIRT, BOULDER, EMPTY,
        PLAYER, WALL, BRICK,
    ]);
    advance_tick(&mut level, no_intents());
    let after_first: Vec<_> = level.map.clone();
    advance_tick(&mut level, no_intents());
    assert_eq!(level.map, after_first);
}

#[test]
fn test_move_player_if_possible_directly() {
    let mut level = make_level(2, 2, &[EMPTY, EMPTY, EMPTY, PLAYER]);
    // entering from the south means moving up
    move_player_if_possible(&mut level, 1, 1, Direction::South);
    assert_eq!(level.cell(1, 1).unwrap().object, None);
    assert_eq!(level.cell(1, 0).unwrap().object, Some(Object::Player));
    assert_eq!(level.cell(1, 0).unwrap().moving_in_from, Some(Direction::South));
    // a move off the grid is silently skipped
    move_player_if_possible(&mut level, 1, 0, Direction::South);
    assert_eq!(level.cell(1, 0).unwrap().object, Some(Object::Player));
}

#[test]
fn test_next_tick_wraps() {
    assert_eq!(next_tick(0), 1);
    assert_eq!(next_tick(10), 11);
    assert_eq!(next_tick(11), 0);
}
