use crossterm_winapi::{Coord, Size};

#[test]
fn size_new_stores_fields() {
    let size = Size::new(120, 30);
    assert_eq!(size.width, 120);
    assert_eq!(size.height, 30);
}

#[test]
fn size_from_coord_maps_axes() {
    let coord = Coord::new(7, -3);
    let size = Size::from(coord);
    assert_eq!(size, Size::new(7, -3));
}

#[test]
fn size_into_unsigned_pair_keeps_bits() {
    let pair: (u16, u16) = Size::new(-1, 2).into();
    assert_eq!(pair, (0xFFFF, 2));
}

#[test]
fn size_default_is_zero() {
    assert_eq!(Size::default(), Size::new(0, 0));
    let origin = Coord::default();
    assert_eq!((origin.x, origin.y), (0, 0));
}
