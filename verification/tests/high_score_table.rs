use mining_core::high_score_table::parse;

#[test]
fn test_parse() {
    let buffer = [
        9, 0, 12, 0, 89, 4, 0, 0,
        0, 1, 2, 0, 0, 0, 0, 0,
        0, 1, 2, 0, 0, 0, 0, 0,
    ];
    let high_scores = parse(&buffer).unwrap();
    assert_eq!(high_scores.len(), 1);
    assert_eq!(high_scores[0].name, "JAM");
    assert_eq!(high_scores[0].score, 1113);

    let buffer = [
        9, 0, 12, 0, 89, 4, 0, 0,
        0, 1, 2, 0, 0, 0, 0, 0,
        0, 1, 2, 0,
    ];
    let error = parse(&buffer).unwrap_err();
    assert_eq!(error, "unparsed bytes at end");
}

#[test]
fn high_score_table_test_load() {
    let buffer = [
        9, 0, 12, 0, 89, 4, 0, 0,
        0, 1, 2, 0, 0, 0, 0, 0,
        0, 1, 2, 0, 0, 0, 0, 0,
    ];
    let high_scores = parse(&buffer).unwrap();
    assert_eq!(high_scores.len(), 1);
    assert_eq!(high_scores[0].name, "JAM");
    assert_eq!(high_scores[0].score, 1113);
}

#[test]
fn test_parse_invalid_name_byte() {
    // 26 is past 'Z' and must be rejected even though the score is valid.
    let buffer = [26, 0, 0, 0, 1, 0, 0, 0];
    let error = parse(&buffer).unwrap_err();
    assert_eq!(error, "name contains invalid characters");
}

#[test]
fn test_parse_empty_buffer() {
    let high_scores = parse(&[]).unwrap();
    assert_eq!(high_scores.len(), 0);
}

#[test]
fn test_parse_full_records_after_sentinel_are_allowed() {
    // The sentinel ends the table; later whole records are ignored, even
    // ones whose name bytes would be invalid.
    let buffer = [
        0, 1, 2, 0, 200, 0, 0, 0,
        0, 0, 0, 0, 0, 0, 0, 0,
        99, 99, 99, 0, 1, 0, 0, 0,
    ];
    let high_scores = parse(&buffer).unwrap();
    assert_eq!(high_scores.len(), 1);
    assert_eq!(high_scores[0].name, "ABC");
    assert_eq!(high_scores[0].score, 200);
}

#[test]
fn test_parse_little_endian_score() {
    // 0x04030201 little endian.
    let buffer = [25, 25, 25, 0, 1, 2, 3, 4];
    let high_scores = parse(&buffer).unwrap();
    assert_eq!(high_scores.len(), 1);
    assert_eq!(high_scores[0].name, "ZZZ");
    assert_eq!(high_scores[0].score, 0x04030201);
}
