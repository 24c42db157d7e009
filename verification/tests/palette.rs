use mining_core::palette::load_palette;

#[test]
fn test_load_palette_scaling_and_alpha() {
    let palette = load_palette(&[1, 2, 3, 63, 0, 10]).unwrap();
    assert_eq!(palette.len(), 2);
    // entry 0 is the transparency key
    assert_eq!(palette[0], vec![4, 8, 12, 0]);
    assert_eq!(palette[1], vec![252, 0, 40, 255]);
}

#[test]
fn test_load_palette_empty() {
    let palette = load_palette(&[]).unwrap();
    assert_eq!(palette.len(), 0);
}

#[test]
fn test_load_palette_bad_length() {
    let error = load_palette(&[1, 2, 3, 4]).unwrap_err();
    assert_eq!(error, "length has to be divisible by 3, was 4");
}
