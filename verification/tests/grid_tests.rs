use calculator::grid::GridLayout;
use calculator::ui::{get_pos, get_size, GAP, XN, YN};

#[test]
fn grid_constants() {
    assert_eq!(XN, 4);
    assert_eq!(YN, 5);
    assert_eq!(GAP, 5);
}

#[test]
fn grid_pos_origin() {
    // First cell starts one gap in: 20/4 = 25/5 = 5 percent on both axes.
    let p = get_pos(0, 0);
    assert_eq!(p.x.num, 20);
    assert_eq!(p.x.den, 4);
    assert_eq!(p.y.num, 25);
    assert_eq!(p.y.den, 5);
}

#[test]
fn grid_pos_second_column() {
    // Two gaps plus one column: 115/4 = 28.75 percent.
    let p = get_pos(1, 0);
    assert_eq!(p.x.num, 115);
    assert_eq!(p.x.den, 4);
}

#[test]
fn grid_size_single_cell() {
    // One column is (100 - 5*5)/4 = 75/4 = 18.75 percent wide and one row
    // (100 - 5*6)/5 = 70/5 = 14 percent high.
    let s = get_size(1, 1);
    assert_eq!(s.x.num, 75);
    assert_eq!(s.x.den, 4);
    assert_eq!(s.y.num, 70);
    assert_eq!(s.y.den, 5);
}

#[test]
fn grid_size_display_span() {
    // Three columns and the two enclosed gaps: 3*75/4 + 2*5 = 66.25 percent.
    let s = get_size(3, 1);
    assert_eq!(s.x.num, 265);
    assert_eq!(s.x.den, 4);
}

#[test]
fn grid_every_cell_within_bounds() {
    // Each cell's position plus a single-cell size stays within 100 percent.
    for x in 0..XN {
        for y in 0..YN {
            let p = get_pos(x, y);
            let s = get_size(1, 1);
            assert!(p.x.num + s.x.num <= 100 * p.x.den);
            assert!(p.y.num + s.y.num <= 100 * p.y.den);
        }
    }
}

#[test]
fn grid_other_shape_within_bounds() {
    // A different grid shape obeys the same bound.
    let g = GridLayout { cols: 3, rows: 3, gap: 2 };
    let p = g.get_pos(2, 2);
    let s = g.get_size(1, 1);
    assert_eq!(p.x.num, 2 * 3 * 3 + 2 * 92);
    assert_eq!(p.x.den, 3);
    assert!(p.x.num + s.x.num <= 100 * 3);
    assert!(p.y.num + s.y.num <= 100 * 3);
}

#[test]
fn grid_zero_gap() {
    let g = GridLayout { cols: 10, rows: 2, gap: 0 };
    let p = g.get_pos(9, 1);
    let s = g.get_size(1, 1);
    // Ten columns of 10 percent each, no gaps: position 90 percent as 900/10.
    assert_eq!(p.x.num, 900);
    assert_eq!(p.x.den, 10);
    assert_eq!(p.x.num + s.x.num, 100 * 10);
}
