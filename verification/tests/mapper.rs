use keymatrix::grid::ScanGrid;
use keymatrix::keys::key_at;
use keymatrix::keys::Key;
fn grid_from(closed: &[(usize, usize)]) -> ScanGrid {
    let mut grid = ScanGrid::new();
    for &(row, col) in closed {
        grid.set(row, col, true);
    }
    grid
}
#[test]
fn empty_grid_reports_no_events() {
    let grid = ScanGrid::new();
    let report = keymatrix::mapper::map(&grid);
    assert_eq!(report.len(), 16);
    for key in report {
        assert_eq!(key, Key::NoEvent);
    }
}
#[test]
fn full_grid_reports_every_key_in_row_major_order() {
    let mut grid = ScanGrid::new();
    for row in 0..4 {
        for col in 0..4 {
            grid.set(row, col, true);
        }
    }
    let report = keymatrix::mapper::map(&grid);
    let expected = vec![
        Key::A,
        Key::B,
        Key::C,
        Key::D,
        Key::E,
        Key::F,
        Key::G,
        Key::H,
        Key::I,
        Key::J,
        Key::K,
        Key::L,
        Key::M,
        Key::N,
        Key::O,
        Key::P,
    ];
    assert_eq!(report, expected);
}
#[test]
fn single_key_row0_col2_reports_c_alone() {
    let grid = grid_from(&[(0, 2)]);
    let report = keymatrix::mapper::map(&grid);
    assert_eq!(report.len(), 16);
    assert_eq!(report[0], Key::C);
    for i in 1..16 {
        assert_eq!(report[i], Key::NoEvent);
    }
}
#[test]
fn two_keys_report_e_then_p() {
    let grid = grid_from(&[(1, 0), (3, 3)]);
    let report = keymatrix::mapper::map(&grid);
    assert_eq!(report[0], Key::E);
    assert_eq!(report[1], Key::P);
    for i in 2..16 {
        assert_eq!(report[i], Key::NoEvent);
    }
}
#[test]
fn pressed_keys_come_in_row_major_order() {
    let grid = grid_from(&[(2, 3), (0, 1), (0, 0)]);
    let report = keymatrix::mapper::map(&grid);
    assert_eq!(report[0], Key::A);
    assert_eq!(report[1], Key::B);
    assert_eq!(report[2], Key::L);
    assert_eq!(report[3], Key::NoEvent);
}
#[test]
fn map_is_deterministic_and_idempotent() {
    let grid = grid_from(&[(1, 1), (2, 2), (3, 0)]);
    let first = keymatrix::mapper::map(&grid);
    let second = keymatrix::mapper::map(&grid);
    assert_eq!(first, second);
}
#[test]
fn key_map_is_the_a_to_p_block() {
    assert_eq!(key_at(0, 0), Key::A);
    assert_eq!(key_at(0, 2), Key::C);
    assert_eq!(key_at(1, 0), Key::E);
    assert_eq!(key_at(2, 1), Key::J);
    assert_eq!(key_at(3, 3), Key::P);
}
#[test]
fn usage_codes_match_the_hid_keyboard_page() {
    assert_eq!(Key::NoEvent.usage(), 0);
    assert_eq!(Key::A.usage(), 4);
    assert_eq!(Key::B.usage(), 5);
    assert_eq!(Key::P.usage(), 19);
}
#[test]
fn grid_set_and_get_round_trip() {
    let mut grid = ScanGrid::new();
    assert!(!grid.get(2, 1));
    grid.set(2, 1, true);
    assert!(grid.get(2, 1));
    assert!(!grid.get(1, 2));
    grid.set(2, 1, false);
    assert!(!grid.get(2, 1));
}
