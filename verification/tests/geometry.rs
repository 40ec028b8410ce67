use sh1106::DisplaySize;

#[test]
fn common_panels_are_supported() {
    for (width, height, offset) in [(128u8, 64u8, 2u8), (128, 32, 2), (128, 64, 0), (132, 64, 0)] {
        let size = DisplaySize::new(width, height, offset).unwrap();
        assert_eq!(size.dimensions(), (width, height));
        assert_eq!(size.column_offset(), offset);
    }
}

#[test]
fn geometry_must_fit_the_buffer() {
    // 8 pages of 132 bytes fill the buffer exactly.
    assert!(DisplaySize::new(132, 64, 0).is_some());
    assert!(DisplaySize::new(133, 64, 0).is_none());
    assert!(DisplaySize::new(132, 65, 0).is_none());
    assert!(DisplaySize::new(255, 255, 0).is_none());
    // A page that is only partly visible still takes its bytes.
    assert!(DisplaySize::new(255, 32, 0).is_some());
    assert!(DisplaySize::new(255, 33, 0).is_none());
    assert!(DisplaySize::new(4, 255, 0).is_some());
    assert!(DisplaySize::new(33, 255, 0).is_some());
    assert!(DisplaySize::new(34, 255, 0).is_none());
}

#[test]
fn last_column_must_be_addressable() {
    assert!(DisplaySize::new(128, 64, 127).is_some());
    assert!(DisplaySize::new(128, 64, 128).is_none());
    assert!(DisplaySize::new(132, 64, 123).is_some());
    assert!(DisplaySize::new(132, 64, 124).is_none());
    assert!(DisplaySize::new(0, 0, 255).is_some());
    assert!(DisplaySize::new(1, 0, 255).is_none());
}

#[test]
fn empty_panels_are_supported() {
    let size = DisplaySize::new(0, 255, 9).unwrap();
    assert_eq!(size.dimensions(), (0, 255));
    let size = DisplaySize::new(200, 0, 9).unwrap();
    assert_eq!(size.dimensions(), (200, 0));
}
