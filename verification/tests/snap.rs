use snap_grid::geometry::{Point, COORD_LIMIT, MAX_SIZE, TICKS_PER_UNIT};
use snap_grid::grid::{is_odd_index, snap_to_line, SnapGrid, DEFAULT_POINT_SIZE, DEFAULT_SIZE};
use snap_grid::lattice::SnapGridType;

fn units(tenths: i64) -> i64 {
    tenths * TICKS_PER_UNIT / 10
}

#[test]
fn the_default_lattice_is_square() {
    assert_eq!(SnapGridType::default(), SnapGridType::Quad);
}

#[test]
fn the_default_grid_is_a_hidden_square_of_twenty_five() {
    let grid = SnapGrid::default();
    assert_eq!(grid.size, 25 * TICKS_PER_UNIT);
    assert_eq!(grid.size, DEFAULT_SIZE);
    assert_eq!(grid.grid_type, SnapGridType::Quad);
    assert!(!grid.visible);
    assert_eq!(grid.color, None);
    assert_eq!(grid.point_size, 3 * TICKS_PER_UNIT);
    assert_eq!(grid.point_size, DEFAULT_POINT_SIZE);
    assert!(grid.is_valid());
    assert_eq!(grid, SnapGrid::quad(DEFAULT_SIZE));
}

#[test]
fn each_constructor_sets_its_lattice_and_the_default_looks() {
    let cases = [
        (SnapGrid::quad(units(100)), SnapGridType::Quad),
        (SnapGrid::hex_pointy(units(100)), SnapGridType::HexPointy),
        (SnapGrid::hex_flat(units(100)), SnapGridType::HexFlat),
    ];
    for (grid, kind) in cases {
        assert_eq!(grid.size, 10_000);
        assert_eq!(grid.grid_type, kind);
        assert!(!grid.visible);
        assert_eq!(grid.color, None);
        assert_eq!(grid.point_size, 3_000);
    }
}

#[test]
fn a_grid_is_valid_when_its_size_is_positive_and_within_the_limit() {
    assert!(SnapGrid::quad(1).is_valid());
    assert!(SnapGrid::quad(MAX_SIZE).is_valid());
    assert!(!SnapGrid::quad(0).is_valid());
    assert!(!SnapGrid::quad(-25_000).is_valid());
    assert!(!SnapGrid::quad(MAX_SIZE + 1).is_valid());
}

#[test]
fn a_point_is_in_range_up_to_the_limit() {
    assert!(Point::new(0, 0).is_in_range());
    assert!(Point::new(COORD_LIMIT, -COORD_LIMIT).is_in_range());
    assert!(!Point::new(COORD_LIMIT + 1, 0).is_in_range());
    assert!(!Point::new(0, -COORD_LIMIT - 1).is_in_range());
}

#[test]
fn square_snap_rounds_each_axis_to_the_nearest_multiple() {
    let grid = SnapGrid::quad(units(250));
    assert_eq!(
        grid.snap(Point::new(units(126), units(-126))),
        Point::new(units(250), units(-250))
    );
    assert_eq!(grid.snap(Point::new(units(124), units(-124))), Point::new(0, 0));
    assert_eq!(
        grid.snap(Point::new(units(630), units(370))),
        Point::new(units(750), units(250))
    );
}

#[test]
fn square_snap_sends_half_way_points_away_from_zero() {
    let grid = SnapGrid::quad(units(250));
    assert_eq!(grid.snap(Point::new(units(125), 0)), Point::new(units(250), 0));
    assert_eq!(grid.snap(Point::new(units(-125), 0)), Point::new(units(-250), 0));
    assert_eq!(
        grid.snap(Point::new(units(375), units(-375))),
        Point::new(units(500), units(-500))
    );
    assert_eq!(grid.snap(Point::new(12_499, -12_499)), Point::new(0, 0));
}

#[test]
fn a_vertex_snaps_to_itself() {
    let grid = SnapGrid::quad(25_000);
    assert_eq!(grid.snap(Point::new(75_000, -50_000)), Point::new(75_000, -50_000));
    let grid = SnapGrid::hex_pointy(10_000);
    assert_eq!(grid.snap(Point::new(5_000, 8_660)), Point::new(5_000, 8_660));
    assert_eq!(grid.snap(Point::new(-5_000, -8_660)), Point::new(-5_000, -8_660));
    let grid = SnapGrid::hex_flat(10_000);
    assert_eq!(grid.snap(Point::new(8_660, 5_000)), Point::new(8_660, 5_000));
}

#[test]
fn snapping_twice_is_snapping_once() {
    let grids = [
        SnapGrid::quad(25_000),
        SnapGrid::hex_pointy(25_000),
        SnapGrid::hex_flat(25_000),
        SnapGrid::hex_pointy(1),
        SnapGrid::hex_flat(7),
        SnapGrid::quad(MAX_SIZE),
    ];
    for grid in grids {
        let mut x = -90_001i64;
        while x <= 90_000 {
            let mut y = -90_003i64;
            while y <= 90_000 {
                let once = grid.snap(Point::new(x, y));
                assert_eq!(grid.snap(once), once);
                y += 7_919;
            }
            x += 6_007;
        }
    }
}

#[test]
fn the_rows_of_a_pointy_grid_lie_closer_than_its_columns() {
    let grid = SnapGrid::hex_pointy(10_000);
    assert_eq!(grid.minor_pitch(), 8_660);
    assert_eq!(SnapGrid::hex_flat(25_000).minor_pitch(), 21_651);
    assert_eq!(SnapGrid::hex_flat(1).minor_pitch(), 1);
    assert_eq!(SnapGrid::hex_flat(MAX_SIZE).minor_pitch(), 929_887_693);
}

#[test]
fn odd_rows_of_a_pointy_grid_are_shifted_by_half_a_cell() {
    let grid = SnapGrid::hex_pointy(10_000);
    // Row 0 and row 2 hold x = 0; row 1 between them does not, but holds 5.
    assert_eq!(grid.snap(Point::new(1_000, 300)), Point::new(0, 0));
    assert_eq!(grid.snap(Point::new(1_000, 17_000)), Point::new(0, 17_320));
    assert_eq!(grid.snap(Point::new(4_000, 8_000)), Point::new(5_000, 8_660));
    assert_eq!(grid.snap(Point::new(14_000, 8_000)), Point::new(15_000, 8_660));
    assert_eq!(grid.snap(Point::new(-4_000, 8_000)), Point::new(-5_000, 8_660));
    // A row is odd whatever its sign.
    assert_eq!(grid.snap(Point::new(4_000, -8_000)), Point::new(5_000, -8_660));
    assert_eq!(grid.snap(Point::new(4_000, -17_000)), Point::new(0, -17_320));
}

#[test]
fn odd_columns_of_a_flat_grid_are_shifted_by_half_a_cell() {
    let grid = SnapGrid::hex_flat(10_000);
    assert_eq!(grid.snap(Point::new(300, 1_000)), Point::new(0, 0));
    assert_eq!(grid.snap(Point::new(17_000, 1_000)), Point::new(17_320, 0));
    assert_eq!(grid.snap(Point::new(8_000, 4_000)), Point::new(8_660, 5_000));
    assert_eq!(grid.snap(Point::new(8_000, 14_000)), Point::new(8_660, 15_000));
    assert_eq!(grid.snap(Point::new(-8_000, 4_000)), Point::new(-8_660, 5_000));
    assert_eq!(grid.snap(Point::new(-17_000, 4_000)), Point::new(-17_320, 0));
}

#[test]
fn an_odd_cell_size_shifts_by_the_half_rounded_down() {
    let grid = SnapGrid::hex_pointy(7);
    assert_eq!(grid.minor_pitch(), 6);
    assert_eq!(grid.snap(Point::new(0, 6)), Point::new(3, 6));
    assert_eq!(grid.snap(Point::new(7, 6)), Point::new(10, 6));
}

#[test]
fn hex_snap_picks_the_row_first_and_not_the_nearest_vertex() {
    let grid = SnapGrid::hex_pointy(10_000);
    // Just past half-way to row 1, on a column of row 0: the vertex (0, 0)
    // is nearer, but the row is chosen by y alone.
    assert_eq!(grid.snap(Point::new(0, 4_400)), Point::new(-5_000, 8_660));
    let grid = SnapGrid::hex_flat(10_000);
    assert_eq!(grid.snap(Point::new(4_400, 0)), Point::new(8_660, -5_000));
}

#[test]
fn snapping_works_at_the_coordinate_limit() {
    let grid = SnapGrid::quad(MAX_SIZE);
    let p = grid.snap(Point::new(COORD_LIMIT, -COORD_LIMIT));
    assert_eq!(p, Point::new(COORD_LIMIT, -COORD_LIMIT));
    let grid = SnapGrid::quad(MAX_SIZE - 1);
    let p = grid.snap(Point::new(COORD_LIMIT, -COORD_LIMIT));
    assert_eq!(p.x % (MAX_SIZE - 1), 0);
    assert!((p.x - COORD_LIMIT).abs() * 2 <= MAX_SIZE - 1);
    assert_eq!(p.y, -p.x);
    let grid = SnapGrid::hex_pointy(MAX_SIZE);
    let p = grid.snap(Point::new(COORD_LIMIT, COORD_LIMIT));
    assert_eq!(grid.snap(p), p);
}

#[test]
fn snapping_ignores_visibility_and_looks() {
    let plain = SnapGrid::hex_flat(25_000);
    let dressed = plain.with_visible(true).with_point_size(9_000);
    let p = Point::new(31_234, -47_111);
    assert_eq!(plain.snap(p), dressed.snap(p));
}

#[test]
fn the_setters_change_one_field_each() {
    let base = SnapGrid::hex_flat(10_000);
    let shown = base.with_visible(true);
    assert!(shown.visible);
    assert_eq!(shown.with_visible(false), base);
    let sized = base.with_point_size(5_500);
    assert_eq!(sized.point_size, 5_500);
    assert_eq!(sized.with_point_size(DEFAULT_POINT_SIZE), base);
    assert_eq!(sized.size, 10_000);
    assert_eq!(sized.grid_type, SnapGridType::HexFlat);
}

#[test]
fn parity_does_not_depend_on_the_sign() {
    assert!(!is_odd_index(0));
    assert!(is_odd_index(1));
    assert!(is_odd_index(-1));
    assert!(!is_odd_index(2));
    assert!(!is_odd_index(-2));
    assert!(is_odd_index(i64::MAX));
    assert!(!is_odd_index(i64::MIN));
    assert!(is_odd_index(i64::MIN + 1));
}

#[test]
fn a_line_is_found_by_its_index_and_position() {
    assert_eq!(snap_to_line(12_600, 25_000, 0), (1, 25_000));
    assert_eq!(snap_to_line(-12_600, 25_000, 0), (-1, -25_000));
    assert_eq!(snap_to_line(0, 10_000, 5_000), (-1, -5_000));
    assert_eq!(snap_to_line(1, 10_000, 5_000), (0, 5_000));
    assert_eq!(snap_to_line(10_000, 10_000, 5_000), (1, 15_000));
}

#[test]
fn a_snapped_position_has_whole_indices() {
    let size = 7_300i64;
    let mut x = -50_001i64;
    while x <= 50_000 {
        let mut y = -50_003i64;
        while y <= 50_000 {
            let p = Point::new(x, y);
            let q = SnapGrid::quad(size).snap(p);
            assert_eq!(q.x % size, 0);
            assert_eq!(q.y % size, 0);
            assert!(2 * (q.x - x).abs() <= size && 2 * (q.y - y).abs() <= size);

            let grid = SnapGrid::hex_pointy(size);
            let pitch = grid.minor_pitch();
            let q = grid.snap(p);
            assert_eq!(q.y % pitch, 0);
            let shift = if is_odd_index(q.y / pitch) { size / 2 } else { 0 };
            assert_eq!((q.x - shift) % size, 0);
            assert!(2 * (q.y - y).abs() <= pitch && 2 * (q.x - x).abs() <= size);

            let grid = SnapGrid::hex_flat(size);
            let q = grid.snap(p);
            assert_eq!(q.x % pitch, 0);
            let shift = if is_odd_index(q.x / pitch) { size / 2 } else { 0 };
            assert_eq!((q.y - shift) % size, 0);
            assert!(2 * (q.x - x).abs() <= pitch && 2 * (q.y - y).abs() <= size);
            y += 3_331;
        }
        x += 2_909;
    }
}

#[test]
fn a_position_is_a_vertex_when_snapping_leaves_it() {
    let grid = SnapGrid::hex_pointy(10_000);
    assert!(grid.is_vertex(Point::new(0, 0)));
    assert!(grid.is_vertex(Point::new(5_000, 8_660)));
    assert!(grid.is_vertex(Point::new(-15_000, -8_660)));
    assert!(grid.is_vertex(Point::new(20_000, 17_320)));
    assert!(!grid.is_vertex(Point::new(5_000, 0)));
    assert!(!grid.is_vertex(Point::new(0, 8_660)));
    assert!(!grid.is_vertex(Point::new(1, 0)));
    let grid = SnapGrid::quad(25_000);
    assert!(grid.is_vertex(Point::new(-25_000, 50_000)));
    assert!(!grid.is_vertex(Point::new(12_500, 0)));
    let p = SnapGrid::hex_flat(7).snap(Point::new(1_234_567, -7_654_321));
    assert!(SnapGrid::hex_flat(7).is_vertex(p));
}
