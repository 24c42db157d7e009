use mining_core::tiles::load_tiles;

#[test]
fn tiles_test_load() {
    // four variable-size blocks back to back
    let buffer = {
        let mut buffer = vec![];
        buffer.extend_from_slice(&[20, 0, 20, 0]);
        for i in 0..20 * 20 {
            buffer.push((i % 256) as u8);
        }
        buffer.extend_from_slice(&[10, 0, 15, 0]);
        for i in 0..10 * 15 {
            buffer.push((i % 256) as u8);
        }
        buffer.extend_from_slice(&[2, 0, 2, 0]);
        for i in 0..2 * 2 {
            buffer.push((i % 256) as u8);
        }
        buffer.extend_from_slice(&[20, 0, 20, 0]);
        for i in 0..20 * 20 {
            buffer.push((i % 256) as u8);
        }
        buffer
    };

    let tiles = load_tiles(&buffer).unwrap();
    assert_eq!(tiles.len(), 4);
    assert_eq!(tiles[0].width, 20);
    assert_eq!(tiles[0].height, 20);
    assert_eq!(tiles[0].data.len(), 20 * 20);
    assert_eq!(tiles[1].width, 10);
    assert_eq!(tiles[1].height, 15);
    assert_eq!(tiles[1].data.len(), 10 * 15);
    assert_eq!(tiles[2].width, 2);
    assert_eq!(tiles[2].height, 2);
    assert_eq!(tiles[2].data.len(), 2 * 2);
    assert_eq!(tiles[3].width, 20);
    assert_eq!(tiles[3].height, 20);
    assert_eq!(tiles[3].data.len(), 20 * 20);
}

#[test]
fn test_load_tile_pixels() {
    let tiles = load_tiles(&[2, 0, 2, 0, 7, 8, 9, 10]).unwrap();
    assert_eq!(tiles.len(), 1);
    assert_eq!(tiles[0].data, vec![7, 8, 9, 10]);
}

#[test]
fn test_load_zero_size_tile() {
    let tiles = load_tiles(&[0, 0, 5, 0, 3, 0, 1, 0, 1, 2, 3]).unwrap();
    assert_eq!(tiles.len(), 2);
    assert_eq!(tiles[0].width, 0);
    assert_eq!(tiles[0].height, 5);
    assert_eq!(tiles[0].data.len(), 0);
    assert_eq!(tiles[1].width, 3);
    assert_eq!(tiles[1].height, 1);
    assert_eq!(tiles[1].data, vec![1, 2, 3]);
}

#[test]
fn test_load_truncated_pixels() {
    // the block declares 3*1 pixels but only two follow
    let error = load_tiles(&[3, 0, 1, 0, 1, 2]).unwrap_err();
    assert_eq!(error, "cannot read over array bounds");
}

#[test]
fn test_load_truncated_header() {
    let error = load_tiles(&[2, 0, 2]).unwrap_err();
    assert_eq!(error, "cannot read over array bounds");
}

#[test]
fn test_load_empty_atlas() {
    let tiles = load_tiles(&[]).unwrap();
    assert_eq!(tiles.len(), 0);
}
