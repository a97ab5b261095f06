use mapplot::geo::{
    project, tile_count, tile_grid, BoundingBox, PixelPoint, WorldPoint, MAX_ZOOM, WORLD_SIZE,
};

fn centre() -> WorldPoint {
    WorldPoint::new(WORLD_SIZE / 2, WORLD_SIZE / 2)
}

#[test]
fn centre_projects_to_half_tile_at_zoom_0() {
    assert_eq!(project(centre(), 0), PixelPoint { x: 128 << 24, y: 128 << 24 });
}

#[test]
fn centre_doubles_at_zoom_1() {
    assert_eq!(project(centre(), 1), PixelPoint { x: 256 << 24, y: 256 << 24 });
}

#[test]
fn projection_is_repeatable() {
    let p = WorldPoint::new(2195205506, 1418692524);
    for zoom in 0..=MAX_ZOOM {
        assert_eq!(project(p, zoom), project(p, zoom));
    }
}

#[test]
fn projection_is_exact() {
    let p = WorldPoint::new(2195205506, 1418692524);
    assert_eq!(project(p, 10), PixelPoint { x: 2195205506 << 10, y: 1418692524 << 10 });
    assert_eq!(project(p, MAX_ZOOM), PixelPoint { x: 2195205506 << 24, y: 1418692524 << 24 });
    assert_eq!(project(p, 0), PixelPoint { x: 2195205506, y: 1418692524 });
}

#[test]
fn each_zoom_doubles_exactly() {
    let p = WorldPoint::new(25165824, 3);
    for zoom in 0..MAX_ZOOM {
        let a = project(p, zoom);
        let b = project(p, zoom + 1);
        assert_eq!(b, PixelPoint { x: 2 * a.x, y: 2 * a.y });
    }
    assert_eq!(project(p, 0).x, 3 << 23);
    assert_eq!(project(p, 1).x, 3 << 24);
}

#[test]
fn single_tile_extent_gives_one_tile() {
    let span: u64 = 1 << 22;
    let p1 = WorldPoint::new(523 * span, 337 * span);
    let p2 = WorldPoint::new(524 * span, 338 * span);
    assert_eq!(tile_grid(BoundingBox::new(p1, p2), 10), vec![(523, 337)]);
    assert_eq!(tile_count(BoundingBox::new(p1, p2), 10), 1);
}

#[test]
fn last_tile_of_the_world_is_one_tile() {
    let p1 = WorldPoint::new(WORLD_SIZE - (1 << 22), WORLD_SIZE - (1 << 22));
    let p2 = WorldPoint::new(WORLD_SIZE, WORLD_SIZE);
    assert_eq!(tile_grid(BoundingBox::new(p1, p2), 10), vec![(1023, 1023)]);
}

#[test]
fn corner_of_the_world_is_clamped() {
    let p = WorldPoint::new(WORLD_SIZE, WORLD_SIZE);
    assert_eq!(tile_grid(BoundingBox::new(p, p), 3), vec![(7, 7)]);
}

#[test]
fn whole_world_at_zoom_1() {
    let p1 = WorldPoint::new(0, 0);
    let p2 = WorldPoint::new(WORLD_SIZE, WORLD_SIZE);
    assert_eq!(
        tile_grid(BoundingBox::new(p1, p2), 1),
        vec![(0, 0), (0, 1), (1, 0), (1, 1)]
    );
}

#[test]
fn corner_order_does_not_matter() {
    let a = WorldPoint::new(2195205506, 1418692524);
    let b = WorldPoint::new(2196398553, 1416752527);
    for zoom in [0u8, 5, 10, 14] {
        assert_eq!(
            tile_grid(BoundingBox::new(a, b), zoom),
            tile_grid(BoundingBox::new(b, a), zoom)
        );
    }
    let c = WorldPoint::new(2196398553, 1418692524);
    let d = WorldPoint::new(2195205506, 1416752527);
    assert_eq!(tile_grid(BoundingBox::new(c, d), 14), tile_grid(BoundingBox::new(a, b), 14));
}

#[test]
fn grid_of_the_sample_box_at_zoom_10() {
    let a = WorldPoint::new(2195205506, 1418692524);
    let b = WorldPoint::new(2196398553, 1416752527);
    let grid = tile_grid(BoundingBox::new(a, b), 10);
    assert_eq!(grid, vec![(523, 337), (523, 338)]);
    assert_eq!(tile_count(BoundingBox::new(a, b), 10), (523 - 523 + 1) * (338 - 337 + 1));
}

#[test]
fn grid_is_a_rectangle_without_repeats() {
    let a = WorldPoint::new(2195205506, 1418692524);
    let b = WorldPoint::new(2196398553, 1416752527);
    let grid = tile_grid(BoundingBox::new(a, b), 14);
    let cols: Vec<u32> = grid.iter().map(|t| t.0).collect();
    let rows: Vec<u32> = grid.iter().map(|t| t.1).collect();
    let (c0, c1) = (*cols.iter().min().unwrap(), *cols.iter().max().unwrap());
    let (r0, r1) = (*rows.iter().min().unwrap(), *rows.iter().max().unwrap());
    assert_eq!(grid.len() as u64, ((c1 - c0 + 1) * (r1 - r0 + 1)) as u64);
    assert_eq!(tile_count(BoundingBox::new(a, b), 14), grid.len() as u64);
    for i in 0..grid.len() {
        for j in 0..i {
            assert_ne!(grid[i], grid[j]);
        }
    }
}
