use keymatrix::keys::Key;

use keymatrix::scanner::MatrixScanner;
use keymatrix::scanner::ScanAction;

/// Drives a full scan against a simulated switch matrix, mirroring the pin
/// operations on a model of the four column pins, and returns the completed
/// grid together with the history of how many columns were active after
/// each action.
fn run_scan(switches: [[bool; 4]; 4]) -> (keymatrix::grid::ScanGrid, Vec<usize>) {
    let mut scanner = MatrixScanner::new();
    let mut pins = [false; 4];
    let mut active_col: Option<usize> = None;
    let mut active_history = Vec::new();
    let mut steps = 0;
    while !scanner.is_done() {
        let action = scanner.next();
        match action {
            ScanAction::Activate { col } => {
                pins[col] = true;
                active_col = Some(col);
            }
            ScanAction::Settle => {
                // the settle delay elapses; no pin changes
            }
            ScanAction::Sample { row } => {
                let col = active_col.expect("a sample is only taken with a column active");
                scanner.record(switches[row][col]);
            }
            ScanAction::Deactivate { col } => {
                pins[col] = false;
                active_col = None;
            }
        }
        active_history.push(pins.iter().filter(|&&high| high).count());
        steps += 1;
        assert!(steps <= 1000, "scan did not terminate");
    }
    (scanner.into_grid(), active_history)
}

#[test]
fn scan_records_every_switch_at_its_position() {
    let switches = [
        [true, false, false, true],
        [false, true, false, false],
        [false, false, false, false],
        [true, false, true, true],
    ];
    let (grid, _) = run_scan(switches);
    for row in 0..4 {
        for col in 0..4 {
            assert_eq!(grid.get(row, col), switches[row][col], "cell ({row}, {col})");
        }
    }
}

#[test]
fn scan_never_activates_two_columns_at_once() {
    let switches = [[true; 4]; 4];
    let (_, active_history) = run_scan(switches);
    // one activate, one settle, four samples and one deactivate per column
    assert_eq!(active_history.len(), 28);
    for active in active_history {
        assert!(active <= 1);
    }
}

#[test]
fn scan_ends_with_all_columns_inactive() {
    let (_, active_history) = run_scan([[false; 4]; 4]);
    assert_eq!(*active_history.last().unwrap(), 0);
}

#[test]
fn scan_then_map_reports_pressed_keys() {
    let mut switches = [[false; 4]; 4];
    switches[0][2] = true;
    switches[3][3] = true;
    let (grid, _) = run_scan(switches);
    let report = keymatrix::mapper::map(&grid);
    assert_eq!(report[0], Key::C);
    assert_eq!(report[1], Key::P);
    for i in 2..16 {
        assert_eq!(report[i], Key::NoEvent);
    }
}
