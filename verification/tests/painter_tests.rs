use solfarmer::grid::TileGrid;
use solfarmer::map::{Position, Texture, TileBundle, TileState};
use solfarmer::painter::{base_overlays, draw_background, half, terrain_at, Overlay, Terrain};

const NUM_X: i32 = 41;
const NUM_Y: i32 = 22;

fn states(grid: &TileGrid) -> Vec<((i32, i32), TileState, Texture)> {
    let mut all = Vec::new();
    for x in 0..grid.num_x() {
        for y in 0..grid.num_y() {
            let tile = grid.get(x, y).unwrap();
            all.push(((x, y), tile.state, tile.texture));
        }
    }
    all
}

#[test]
fn half_rounds_towards_zero() {
    assert_eq!(half(41), 20);
    assert_eq!(half(22), 11);
    assert_eq!(half(0), 0);
    assert_eq!(half(-1), 0);
    assert_eq!(half(-7), -3);
    assert_eq!(half(i32::MIN), i32::MIN / 2);
    assert_eq!(half(i32::MAX), i32::MAX / 2);
}

#[test]
fn corners_are_ruins() {
    assert_eq!(terrain_at(NUM_X, NUM_Y, 0, 0), Terrain::Ruin);
    assert_eq!(terrain_at(NUM_X, NUM_Y, 0, 21), Terrain::Ruin);
    assert_eq!(terrain_at(NUM_X, NUM_Y, 40, 0), Terrain::Ruin);
    assert_eq!(terrain_at(NUM_X, NUM_Y, 40, 21), Terrain::Ruin);
    assert_eq!(terrain_at(NUM_X, NUM_Y, 4, 2), Terrain::Ruin);
    assert_eq!(terrain_at(NUM_X, NUM_Y, 37, 19), Terrain::Ruin);
}

#[test]
fn point_at_exactly_the_corner_radius_is_no_ruin() {
    assert_eq!(terrain_at(NUM_X, NUM_Y, 3, 4), Terrain::Grass);
    assert_eq!(terrain_at(NUM_X, NUM_Y, 4, 3), Terrain::Grass);
    assert_eq!(terrain_at(NUM_X, NUM_Y, 5, 0), Terrain::Grass);
    assert_eq!(terrain_at(NUM_X, NUM_Y, 0, 5), Terrain::Grass);
    assert_eq!(terrain_at(NUM_X, NUM_Y, 0, 16), Terrain::Grass);
    assert_eq!(terrain_at(NUM_X, NUM_Y, 37, 17), Terrain::Grass);
    assert_eq!(terrain_at(NUM_X, NUM_Y, 35, 0), Terrain::Grass);
    assert_eq!(terrain_at(NUM_X, NUM_Y, 4, 2).state(), TileState::Immutable);
    assert_eq!(terrain_at(NUM_X, NUM_Y, 3, 4).state(), TileState::Untoiled);
}

#[test]
fn the_corner_rule_comes_before_the_house() {
    assert_eq!(terrain_at(36, NUM_Y, 34, 0), Terrain::Ruin);
    assert_eq!(terrain_at(36, NUM_Y, 32, 3), Terrain::Ruin);
    assert_eq!(terrain_at(36, NUM_Y, 31, 3), Terrain::House);
    assert_eq!(terrain_at(NUM_X, NUM_Y, 36, 3), Terrain::Grass);
    assert_eq!(terrain_at(NUM_X, NUM_Y, 6, 0), Terrain::House);
    assert_eq!(terrain_at(NUM_X, NUM_Y, 34, 3), Terrain::House);
    assert_eq!(terrain_at(NUM_X, NUM_Y, 20, 2), Terrain::House);
    assert_eq!(terrain_at(NUM_X, NUM_Y, 20, 4), Terrain::Grass);
}

#[test]
fn the_middle_is_a_field() {
    assert_eq!(terrain_at(NUM_X, NUM_Y, 20, 11), Terrain::Farm);
    assert_eq!(terrain_at(NUM_X, NUM_Y, 23, 11), Terrain::Farm);
    assert_eq!(terrain_at(NUM_X, NUM_Y, 22, 13), Terrain::Farm);
    assert_eq!(terrain_at(NUM_X, NUM_Y, 24, 11), Terrain::Grass);
    assert_eq!(terrain_at(NUM_X, NUM_Y, 20, 15), Terrain::Grass);
    assert_eq!(terrain_at(NUM_X, NUM_Y, 20, 7), Terrain::Grass);
    assert_eq!(terrain_at(NUM_X, NUM_Y, 20, 8), Terrain::Farm);
}

#[test]
fn torch_sites() {
    assert_eq!(terrain_at(NUM_X, NUM_Y, 7, 6), Terrain::TorchSite);
    assert_eq!(terrain_at(NUM_X, NUM_Y, 7, 15), Terrain::TorchSite);
    assert_eq!(terrain_at(NUM_X, NUM_Y, 33, 6), Terrain::TorchSite);
    assert_eq!(terrain_at(NUM_X, NUM_Y, 33, 15), Terrain::TorchSite);
    assert_eq!(terrain_at(NUM_X, NUM_Y, 7, 7), Terrain::Grass);
    assert_eq!(terrain_at(NUM_X, NUM_Y, 8, 6), Terrain::Grass);
}

#[test]
fn the_field_comes_before_the_torch_in_a_small_grid() {
    assert_eq!(terrain_at(14, 12, 7, 6), Terrain::Farm);
    assert_eq!(terrain_at(16, 12, 7, 6), Terrain::Farm);
    assert_eq!(terrain_at(10, 10, 7, 6), Terrain::Ruin);
}

#[test]
fn coordinates_outside_the_grid_fall_through() {
    assert_eq!(terrain_at(NUM_X, NUM_Y, 100, 100), Terrain::Grass);
    assert_eq!(terrain_at(NUM_X, NUM_Y, -20, 9), Terrain::Grass);
    assert_eq!(terrain_at(NUM_X, NUM_Y, i32::MAX, i32::MIN), Terrain::Grass);
    assert_eq!(terrain_at(NUM_X, NUM_Y, -1, -1), Terrain::Ruin);
}

#[test]
fn terrain_decides_state_and_texture() {
    assert_eq!(Terrain::Ruin.state(), TileState::Immutable);
    assert_eq!(Terrain::Ruin.texture(), Texture::WoodRuined);
    assert_eq!(Terrain::Farm.state(), TileState::Toiled);
    assert_eq!(Terrain::Farm.texture(), Texture::FarmTile);
    assert_eq!(Terrain::House.state(), TileState::Immutable);
    assert_eq!(Terrain::House.texture(), Texture::Concrete);
    assert_eq!(Terrain::TorchSite.state(), TileState::Immutable);
    assert_eq!(Terrain::TorchSite.texture(), Texture::Concrete);
    assert_eq!(Terrain::Grass.state(), TileState::Untoiled);
    assert_eq!(Terrain::Grass.texture(), Texture::RedGrass);
}

#[test]
fn background_has_one_tile_per_cell() {
    let bg = draw_background(NUM_X, NUM_Y);
    assert_eq!(bg.grid.num_x(), NUM_X);
    assert_eq!(bg.grid.num_y(), NUM_Y);
    let mut count = 0;
    for x in 0..NUM_X {
        for y in 0..NUM_Y {
            let tile = bg.grid.get(x, y).unwrap();
            let terrain = terrain_at(NUM_X, NUM_Y, x, y);
            assert_eq!(tile, TileBundle::new(terrain.texture(), x, y, terrain.state()));
            assert_eq!(tile.position, Position { x: 32 * x as i64, y: 32 * y as i64 });
            count += 1;
        }
    }
    assert_eq!(count, 902);
    assert_eq!(bg.grid.get(NUM_X, 0), None);
    assert_eq!(bg.grid.get(0, NUM_Y), None);
    assert_eq!(bg.grid.get(-1, 0), None);
    assert_eq!(bg.grid.get(0, -1), None);
}

#[test]
fn background_counts_by_state() {
    let bg = draw_background(NUM_X, NUM_Y);
    let all = states(&bg.grid);
    let toiled = all.iter().filter(|t| t.1 == TileState::Toiled).count();
    let planted = all.iter().filter(|t| t.1 == TileState::Planted).count();
    let torches = all.iter().filter(|t| (t.0 .0 == 7 || t.0 .0 == 33) && (t.0 .1 == 6 || t.0 .1 == 15)).count();
    assert_eq!(toiled, 45);
    assert_eq!(planted, 0);
    assert_eq!(torches, 4);
    for t in &all {
        match t.1 {
            TileState::Toiled => assert_eq!(t.2, Texture::FarmTile),
            TileState::Untoiled => assert_eq!(t.2, Texture::RedGrass),
            TileState::Immutable => assert!(t.2 == Texture::WoodRuined || t.2 == Texture::Concrete),
            TileState::Planted => unreachable!(),
        }
    }
}

#[test]
fn painting_twice_gives_the_same_map() {
    let first = draw_background(NUM_X, NUM_Y);
    let second = draw_background(NUM_X, NUM_Y);
    assert_eq!(states(&first.grid), states(&second.grid));
    assert_eq!(first.overlays, second.overlays);
    let small_first = draw_background(10, 10);
    let small_second = draw_background(10, 10);
    assert_eq!(states(&small_first.grid), states(&small_second.grid));
    assert_eq!(small_first.overlays, small_second.overlays);
}

#[test]
fn background_without_cells() {
    for (nx, ny) in [(0, 0), (0, 5), (5, 0), (-3, 7), (7, -3), (i32::MIN, i32::MIN)] {
        let bg = draw_background(nx, ny);
        assert_eq!(bg.grid.num_x(), nx.max(0));
        assert_eq!(bg.grid.num_y(), ny.max(0));
        assert_eq!(bg.grid.get(0, 0), None);
        assert_eq!(bg.overlays.len(), 42);
    }
}

#[test]
fn torches_stand_on_the_torch_sites() {
    let bg = draw_background(NUM_X, NUM_Y);
    assert_eq!(bg.overlays.len(), 4 + 21 + 21);
    let sites = [(7, 6), (7, 15), (33, 6), (33, 15)];
    for (i, (x, y)) in sites.iter().enumerate() {
        assert_eq!(
            bg.overlays[i],
            Overlay { texture: Texture::Torch, x: 32 * x, y: 32 * y, z: 1, angle: 0, position: None }
        );
    }
}

#[test]
fn a_small_grid_has_no_torches() {
    let bg = draw_background(10, 10);
    assert_eq!(bg.overlays.len(), 42);
    assert!(bg.overlays.iter().all(|o| o.texture != Texture::Torch));
    let bg = draw_background(34, 16);
    assert_eq!(bg.overlays.len(), 42 + 3);
    assert_eq!((bg.overlays[0].x, bg.overlays[0].y), (32 * 7, 32 * 6));
    assert_eq!((bg.overlays[1].x, bg.overlays[1].y), (32 * 7, 32 * 15));
    assert_eq!((bg.overlays[2].x, bg.overlays[2].y), (32 * 33, 32 * 6));
    assert_eq!(bg.grid.get(33, 15).unwrap().texture, Texture::WoodRuined);
    let bg = draw_background(34, 15);
    assert_eq!(bg.overlays.len(), 42 + 2);
    assert_eq!((bg.overlays[1].x, bg.overlays[1].y), (32 * 33, 32 * 6));
}

#[test]
fn base_covers_seven_by_three_cells() {
    let pieces = base_overlays(13, 1);
    assert_eq!(pieces.len(), 21);
    let mut cells: Vec<(i64, i64)> = pieces.iter().map(|p| (p.x / 32, p.y / 32)).collect();
    cells.sort();
    cells.dedup();
    assert_eq!(cells.len(), 21);
    for p in &pieces {
        assert_eq!(p.x % 32, 0);
        assert_eq!(p.y % 32, 0);
        assert!(10 <= p.x / 32 && p.x / 32 <= 16);
        assert!(0 <= p.y / 32 && p.y / 32 <= 2);
        assert_eq!(p.z, 5);
        assert_eq!(p.position, Some(Position { x: -10, y: -10 }));
    }
}

#[test]
fn base_pieces_by_place() {
    let pieces = base_overlays(27, 1);
    let at = |dx: i64, dy: i64| *pieces.iter().find(|p| p.x == (27 + dx) * 32 && p.y == (1 + dy) * 32).unwrap();
    assert_eq!((at(-3, 1).texture, at(-3, 1).angle), (Texture::BaseCorner, 90));
    assert_eq!((at(3, 1).texture, at(3, 1).angle), (Texture::BaseCorner, 0));
    assert_eq!((at(-3, 0).texture, at(-3, 0).angle), (Texture::BaseWall, 90));
    assert_eq!((at(-3, -1).texture, at(-3, -1).angle), (Texture::BaseWall, 90));
    assert_eq!((at(3, 0).texture, at(3, 0).angle), (Texture::BaseWall, -90));
    assert_eq!((at(3, -1).texture, at(3, -1).angle), (Texture::BaseWall, -90));
    for dx in -2..=2 {
        assert_eq!((at(dx, 1).texture, at(dx, 1).angle), (Texture::BaseWall, 0));
        assert_eq!((at(dx, 0).texture, at(dx, 0).angle), (Texture::BaseRoof, 0));
        assert_eq!((at(dx, -1).texture, at(dx, -1).angle), (Texture::BaseRoof, 0));
    }
    let corners = pieces.iter().filter(|p| p.texture == Texture::BaseCorner).count();
    let walls = pieces.iter().filter(|p| p.texture == Texture::BaseWall).count();
    let roofs = pieces.iter().filter(|p| p.texture == Texture::BaseRoof).count();
    assert_eq!((corners, walls, roofs), (2, 9, 10));
}

#[test]
fn base_pieces_come_row_by_row_from_the_top() {
    let pieces = base_overlays(13, 1);
    assert_eq!((pieces[0].x, pieces[0].y), (10 * 32, 2 * 32));
    assert_eq!((pieces[6].x, pieces[6].y), (16 * 32, 2 * 32));
    assert_eq!((pieces[7].x, pieces[7].y), (10 * 32, 32));
    assert_eq!((pieces[20].x, pieces[20].y), (16 * 32, 0));
}

#[test]
fn both_bases_are_part_of_the_background() {
    let bg = draw_background(NUM_X, NUM_Y);
    assert_eq!(bg.overlays[4..25], base_overlays(13, 1)[..]);
    assert_eq!(bg.overlays[25..46], base_overlays(27, 1)[..]);
}

#[test]
fn grid_set_replaces_one_tile() {
    let mut grid = TileGrid::filled(3, 2, TileState::Untoiled, Texture::RedGrass);
    assert!(grid.set(2, 1, TileState::Toiled, Texture::FarmTile));
    assert_eq!(grid.get(2, 1), Some(TileBundle::new(Texture::FarmTile, 2, 1, TileState::Toiled)));
    for (x, y) in [(0, 0), (0, 1), (1, 0), (1, 1), (2, 0)] {
        assert_eq!(grid.get(x, y), Some(TileBundle::new(Texture::RedGrass, x, y, TileState::Untoiled)));
    }
    assert!(!grid.set(3, 0, TileState::Toiled, Texture::FarmTile));
    assert!(!grid.set(0, 2, TileState::Toiled, Texture::FarmTile));
    assert!(!grid.set(-1, 0, TileState::Toiled, Texture::FarmTile));
    assert_eq!(grid.num_x(), 3);
    assert_eq!(grid.num_y(), 2);
}
