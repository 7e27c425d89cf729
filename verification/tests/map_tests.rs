use solfarmer::map::{
    distance_int_from_point, distance_squared, get_tile, get_world, integer_sqrt, tile_index,
    within_circle, within_rect, Position, Texture, TileBundle, TileState,
};

#[test]
fn integer_sqrt_rounds_down() {
    assert_eq!(integer_sqrt(0), 0);
    assert_eq!(integer_sqrt(1), 1);
    assert_eq!(integer_sqrt(3), 1);
    assert_eq!(integer_sqrt(4), 2);
    assert_eq!(integer_sqrt(24), 4);
    assert_eq!(integer_sqrt(25), 5);
    assert_eq!(integer_sqrt(26), 5);
    assert_eq!(integer_sqrt(1_000_000), 1000);
    assert_eq!(integer_sqrt(999_999), 999);
}

#[test]
fn integer_sqrt_of_the_largest_squared_distance() {
    let d = distance_squared((i32::MIN, i32::MIN), (i32::MAX, i32::MAX));
    assert_eq!(d, 2 * (u32::MAX as u128) * (u32::MAX as u128));
    let r = integer_sqrt(d);
    assert!(r * r <= d);
    assert!((r + 1) * (r + 1) > d);
    assert_eq!(r, 6_074_000_998);
}

#[test]
fn distance_squared_is_symmetric_and_exact() {
    assert_eq!(distance_squared((0, 0), (3, 4)), 25);
    assert_eq!(distance_squared((3, 4), (0, 0)), 25);
    assert_eq!(distance_squared((-2, 5), (-2, 5)), 0);
    assert_eq!(distance_squared((-1, -1), (1, 1)), 8);
}

#[test]
fn distance_is_rounded_down() {
    assert_eq!(distance_int_from_point((0, 0), (3, 4)), 5);
    assert_eq!(distance_int_from_point((0, 0), (1, 1)), 1);
    assert_eq!(distance_int_from_point((7, 6), (7, 6)), 0);
    assert_eq!(distance_int_from_point((7, 6), (13, 6)), 6);
    assert_eq!(distance_int_from_point((7, 6), (12, 11)), 7);
    assert_eq!(distance_int_from_point((7, 6), (11, 11)), 6);
    assert_eq!(distance_int_from_point((i32::MIN, 0), (i32::MAX, 0)), u32::MAX as u64);
}

#[test]
fn circle_excludes_points_at_exactly_the_radius() {
    assert!(!within_circle((0, 0), (3, 4), 5));
    assert!(!within_circle((0, 0), (5, 0), 5));
    assert!(!within_circle((0, 0), (0, 5), 5));
    assert!(!within_circle((10, 10), (6, 7), 5));
}

#[test]
fn circle_includes_points_just_inside() {
    assert!(within_circle((0, 0), (4, 2), 5));
    assert!(within_circle((0, 0), (4, 0), 5));
    assert!(within_circle((0, 0), (3, 3), 5));
    assert!(within_circle((0, 0), (0, 0), 1));
    assert!(within_circle((3, 4), (0, 0), 6));
}

#[test]
fn circle_excludes_points_outside() {
    assert!(!within_circle((0, 0), (4, 4), 5));
    assert!(!within_circle((0, 0), (6, 0), 5));
    assert!(!within_circle((i32::MIN, i32::MIN), (i32::MAX, i32::MAX), i32::MAX));
}

#[test]
fn circle_of_no_radius_is_empty() {
    assert!(!within_circle((2, 2), (2, 2), 0));
    assert!(!within_circle((2, 2), (2, 2), -3));
}

#[test]
fn rect_includes_its_borders() {
    assert!(within_rect((6, 0), (34, 3), (6, 0)));
    assert!(within_rect((6, 0), (34, 3), (34, 3)));
    assert!(within_rect((6, 0), (34, 3), (20, 2)));
    assert!(!within_rect((6, 0), (34, 3), (5, 0)));
    assert!(!within_rect((6, 0), (34, 3), (35, 3)));
    assert!(!within_rect((6, 0), (34, 3), (20, 4)));
    assert!(!within_rect((6, 0), (34, 3), (20, -1)));
}

#[test]
fn rect_with_swapped_corners_is_empty() {
    assert!(!within_rect((34, 3), (6, 0), (20, 2)));
}

#[test]
fn tiles_are_centred_on_multiples_of_the_tile_size() {
    assert_eq!(get_tile(0, 0), (0, 0));
    assert_eq!(get_tile(15, 15), (0, 0));
    assert_eq!(get_tile(16, 16), (1, 1));
    assert_eq!(get_tile(47, 48), (1, 2));
    assert_eq!(get_tile(-16, -16), (0, 0));
    assert_eq!(get_tile(640, 64), (20, 2));
}

#[test]
fn tile_of_a_negative_coordinate_rounds_down() {
    assert_eq!(get_tile(-17, -17), (-1, -1));
    assert_eq!(get_tile(-20, -48), (-1, -1));
    assert_eq!(get_tile(-49, 0), (-2, 0));
    assert_eq!(tile_index(-10), 0);
}

#[test]
fn tile_of_a_far_coordinate_stays_in_range() {
    assert_eq!(tile_index(i64::MAX), i32::MAX);
    assert_eq!(tile_index(i64::MIN), i32::MIN);
    assert_eq!(tile_index(32 * (i32::MAX as i64)), i32::MAX);
    assert_eq!(tile_index(32 * (i32::MIN as i64)), i32::MIN);
    assert_eq!(tile_index(32 * (i32::MAX as i64) - 17), i32::MAX - 1);
}

#[test]
fn world_position_is_tile_times_tile_size() {
    assert_eq!(get_world(0, 0), (0, 0));
    assert_eq!(get_world(20, 20), (640, 640));
    assert_eq!(get_world(-3, 7), (-96, 224));
    assert_eq!(get_world(i32::MAX, i32::MIN), (32 * (i32::MAX as i64), 32 * (i32::MIN as i64)));
}

#[test]
fn centre_of_a_tile_lies_in_that_tile() {
    for x in [-50, -1, 0, 1, 7, 40, i32::MAX, i32::MIN] {
        for y in [-9, 0, 21, i32::MAX] {
            let (wx, wy) = get_world(x, y);
            assert_eq!(get_tile(wx, wy), (x, y));
        }
    }
}

#[test]
fn tile_state_names() {
    assert_eq!(TileState::Immutable.value(), "Immutable");
    assert_eq!(TileState::Untoiled.value(), "Untoiled");
    assert_eq!(TileState::Toiled.value(), "Toiled");
    assert_eq!(TileState::Planted.value(), "Planted");
}

#[test]
fn texture_paths() {
    assert_eq!(Texture::WoodRuined.path(), "tiles/wood_ruined.png");
    assert_eq!(Texture::FarmTile.path(), "tiles/farmtile.png");
    assert_eq!(Texture::Concrete.path(), "tiles/concrete.png");
    assert_eq!(Texture::RedGrass.path(), "tiles/redgrass.png");
    assert_eq!(Texture::SeedsGreen.path(), "tiles/farmtile_seeds_green.png");
    assert_eq!(Texture::SeedsPink.path(), "tiles/farmtile_seeds_pink.png");
    assert_eq!(Texture::SeedsYellow.path(), "tiles/farmtile_seeds_yellow.png");
    assert_eq!(Texture::Torch.path(), "images/torch.png");
    assert_eq!(Texture::BaseCorner.path(), "tiles/base_corner.png");
    assert_eq!(Texture::BaseWall.path(), "tiles/base_wall.png");
    assert_eq!(Texture::BaseRoof.path(), "tiles/base_roof.png");
}

#[test]
fn tile_bundle_is_placed_at_its_world_position() {
    let tile = TileBundle::new(Texture::FarmTile, 3, 5, TileState::Toiled);
    assert_eq!(tile.state, TileState::Toiled);
    assert_eq!(tile.texture, Texture::FarmTile);
    assert_eq!(tile.position, Position { x: 96, y: 160 });
}
