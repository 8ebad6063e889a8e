use buglympics::attr::{AttrSet, TileAttr};
use buglympics::grid::TileGrid;
use buglympics::probe::{Direction, MapHit, Ray};

/// A grid of ten by ten cells of sixteen pixels in which every cell from
/// `first_row` down holds the tile `tile`.
fn grid_with_floor(first_row: usize, tile: u16) -> TileGrid {
    let mut data = vec![0u16; 100];
    for row in first_row..10 {
        for column in 0..10 {
            data[row * 10 + column] = tile;
        }
    }
    TileGrid::new(10, 10, 16, 16, data).unwrap()
}

/// A grid of ten by ten cells in which every cell from `first_column` to the
/// right holds the tile `tile`.
fn grid_with_wall(first_column: usize, tile: u16) -> TileGrid {
    let mut data = vec![0u16; 100];
    for row in 0..10 {
        for column in first_column..10 {
            data[row * 10 + column] = tile;
        }
    }
    TileGrid::new(10, 10, 16, 16, data).unwrap()
}

fn solid(tile: usize) -> AttrSet {
    let mut attrs = AttrSet::new(0);
    attrs.insert(tile, TileAttr::Angle(0));
    attrs
}

#[test]
fn probe_ignores_tiles_without_attributes() {
    let grid = grid_with_floor(0, 7);
    let attrs = solid(2);
    for direction in [Direction::Left, Direction::Right, Direction::Up, Direction::Down] {
        for distance in [0i64, 1_000, 8_000, 40_000, 400_000] {
            for steps in [0u8, 1, 8, 255] {
                let ray = Ray::new(72_000, 72_000, direction, distance, steps);
                assert!(ray.cast(&grid, &attrs).is_empty());
                assert_eq!(ray.nearest_map_collision(&grid, &attrs), None);
            }
        }
    }
}

#[test]
fn probe_reports_every_increment_on_a_collidable_tile() {
    let grid = grid_with_floor(6, 2);
    let attrs = solid(2);
    let ray = Ray::new(100_000, 94_000, Direction::Down, 8_000, 8);
    let hits = ray.cast(&grid, &attrs);
    assert_eq!(hits.len(), 7);
    for hit in hits.iter() {
        assert_eq!(hit.tile_id, 2);
        assert_eq!(hit.map_loc_id, 6 * 10 + 6);
        assert_eq!(hit.point_x, 100_000);
        assert_eq!(hit.point_y, 96_000);
        assert_eq!(hit.overlap_x, 0);
        assert_eq!(hit.overlap_y, 6_000);
    }
}

#[test]
fn probe_with_no_steps_reports_nothing() {
    let grid = grid_with_floor(0, 2);
    let attrs = solid(2);
    let ray = Ray::new(10_000, 10_000, Direction::Down, 8_000, 0);
    assert!(ray.cast(&grid, &attrs).is_empty());
}

#[test]
fn probe_outside_the_grid_reports_nothing() {
    let grid = grid_with_floor(0, 2);
    let attrs = solid(2);
    assert!(Ray::new(-20_000, 10_000, Direction::Left, 8_000, 8).cast(&grid, &attrs).is_empty());
    assert!(Ray::new(10_000, 170_000, Direction::Down, 8_000, 8).cast(&grid, &attrs).is_empty());
    let hits = Ray::new(-4_000, 10_000, Direction::Right, 8_000, 8).cast(&grid, &attrs);
    assert_eq!(hits.len(), 5);
    assert_eq!(hits[0].point_x, 0);
}

#[test]
fn ground_probe_reports_hit_at_the_top_of_the_floor() {
    let grid = grid_with_floor(6, 2);
    let attrs = solid(2);
    let ray = Ray::new(100_000, 88_000, Direction::Down, 8_000, 8);
    let hit = ray.nearest_map_collision(&grid, &attrs).unwrap();
    assert_eq!(
        hit,
        MapHit {
            tile_id: 2,
            map_loc_id: 66,
            point_x: 100_000,
            point_y: 96_000,
            overlap_x: 0,
            overlap_y: 0,
        }
    );
    let short = Ray::new(100_000, 84_000, Direction::Down, 8_000, 8);
    assert_eq!(short.nearest_map_collision(&grid, &attrs), None);
}

#[test]
fn side_probe_reports_hit_at_the_face_of_the_wall() {
    let grid = grid_with_wall(8, 2);
    let attrs = solid(2);
    let ray = Ray::new(124_000, 40_000, Direction::Right, 4_000, 4);
    let hit = ray.nearest_map_collision(&grid, &attrs).unwrap();
    assert_eq!(hit.point_x, 128_000);
    assert_eq!(hit.point_y, 40_000);
    assert_eq!(hit.map_loc_id, 2 * 10 + 8);
    let short = Ray::new(120_000, 40_000, Direction::Right, 4_000, 4);
    assert_eq!(short.nearest_map_collision(&grid, &attrs), None);
}

#[test]
fn leftward_probe_reports_the_right_face_of_the_cell() {
    let data = {
        let mut data = vec![0u16; 100];
        data[2 * 10 + 3] = 2;
        data
    };
    let grid = TileGrid::new(10, 10, 16, 16, data).unwrap();
    let attrs = solid(2);
    let ray = Ray::new(66_000, 40_000, Direction::Left, 4_000, 4);
    let hit = ray.nearest_map_collision(&grid, &attrs).unwrap();
    assert_eq!(hit.point_x, 64_000);
    assert_eq!(hit.map_loc_id, 23);
    assert_eq!(ray.cast(&grid, &attrs).len(), 2);
}

#[test]
fn nearest_hit_is_the_first_of_the_nearest() {
    let ray = Ray::new(0, 0, Direction::Down, 8_000, 8);
    let hit = |point_y: i64, map_loc_id: usize| MapHit {
        tile_id: 2,
        map_loc_id,
        point_x: 0,
        point_y,
        overlap_x: 0,
        overlap_y: 0,
    };
    let hits = vec![hit(9_000, 0), hit(-3_000, 1), hit(3_000, 2), hit(5_000, 3)];
    assert_eq!(ray.nearest(&hits), Some(1));
    assert_eq!(ray.nearest(&Vec::new()), None);
    let sideways = Ray::new(0, 0, Direction::Right, 8_000, 8);
    assert_eq!(sideways.nearest(&hits), Some(0));
}

#[test]
fn ray_is_brought_into_the_world() {
    let ray = Ray::new(i64::MAX, i64::MIN, Direction::Up, -5, 3);
    assert_eq!(ray.origin_x, 4_000_000_000_000);
    assert_eq!(ray.origin_y, -4_000_000_000_000);
    assert_eq!(ray.distance, 0);
    assert_eq!(ray.steps, 3);
}

#[test]
fn ray_touches_box_only_where_it_reaches() {
    let ray = Ray::new(10_000, 10_000, Direction::Right, 8_000, 8);
    assert!(ray.hits_box(18_000, 0, 30_000, 20_000));
    assert!(!ray.hits_box(18_001, 0, 30_000, 20_000));
    assert!(!ray.hits_box(12_000, 10_001, 30_000, 20_000));
    assert!(ray.hits_box(0, 10_000, 10_000, 10_000));
    let down = Ray::new(10_000, 10_000, Direction::Down, 8_000, 8);
    assert!(down.hits_box(10_000, 18_000, 20_000, 19_000));
    assert!(!down.hits_box(10_001, 12_000, 20_000, 19_000));
}

#[test]
fn grid_needs_one_tile_for_every_cell() {
    assert!(TileGrid::new(10, 10, 16, 16, vec![0; 99]).is_none());
    assert!(TileGrid::new(10, 10, 0, 16, vec![0; 100]).is_none());
    assert!(TileGrid::new(10, 10, 16, 0, vec![0; 100]).is_none());
    assert!(TileGrid::new(usize::MAX, 2, 16, 16, vec![0; 100]).is_none());
    assert!(TileGrid::new(0, 0, 16, 16, Vec::new()).is_some());
}

#[test]
fn grid_locates_cells_row_by_row() {
    let grid = grid_with_floor(6, 2);
    assert_eq!(grid.locate(0, 0), Some(0));
    assert_eq!(grid.locate(15_999, 15_999), Some(0));
    assert_eq!(grid.locate(16_000, 0), Some(1));
    assert_eq!(grid.locate(0, 16_000), Some(10));
    assert_eq!(grid.locate(159_999, 159_999), Some(99));
    assert_eq!(grid.locate(160_000, 0), None);
    assert_eq!(grid.locate(-1, 0), None);
    assert_eq!(grid.locate(0, -1), None);
    assert_eq!(grid.tile(66), 2);
    assert_eq!(grid.above(66), Some(56));
    assert_eq!(grid.above(9), None);
}
