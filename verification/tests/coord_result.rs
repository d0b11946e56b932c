use crossterm_winapi::{coord_result, Coord, OsError, WindowPositions};

#[test]
fn nonzero_pair_is_success() {
    let r = coord_result(Coord::new(3, 4), OsError::new(5));
    assert_eq!(r.unwrap(), Coord::new(3, 4));
}

#[test]
fn zero_coordinate_reports_the_last_error() {
    let r = coord_result(Coord::new(0, 4), OsError::new(5));
    assert!(matches!(r, Err(e) if e.code() == 5));

    let r = coord_result(Coord::new(3, 0), OsError::new(6));
    assert!(matches!(r, Err(e) if e.code() == 6));

    let r = coord_result(Coord::new(0, 0), OsError::new(7));
    assert!(matches!(r, Err(e) if e.code() == 7));
}

#[test]
fn window_positions_default_is_the_origin_cell() {
    assert_eq!(WindowPositions::default(), WindowPositions::new(0, 0, 0, 0));
}
