//! Tile coordinates and world positions, the distance predicates on them,
//! and what a tile is.

use vstd::prelude::*;

verus! {

/// Squared Euclidean distance between two tile coordinates.
pub open spec fn dist_sq(a: (int, int), b: (int, int)) -> int {
    (a.0 - b.0) * (a.0 - b.0) + (a.1 - b.1) * (a.1 - b.1)
}

/// `r` is the largest whole number whose square does not exceed `n`.
pub open spec fn is_floor_sqrt(r: int, n: int) -> bool {
    0 <= r && r * r <= n < (r + 1) * (r + 1)
}

/// The square root of `n`, rounded down.
pub open spec fn floor_sqrt(n: int) -> int {
    choose|r: int| is_floor_sqrt(r, n)
}

/// Squaring is strictly increasing on the non-negative integers.
pub proof fn lemma_square_increases(a: int, b: int)
    by (nonlinear_arith)
    requires
        0 <= a < b,
    ensures
        a * a < b * b,
        (a + 1) * (a + 1) <= b * b,
{
}

/// At most one number is the rounded-down square root of `n`, and
/// `floor_sqrt` names it.
pub proof fn lemma_floor_sqrt_unique(r: int, n: int)
    requires
        is_floor_sqrt(r, n),
    ensures
        floor_sqrt(n) == r,
{
    let s = floor_sqrt(n);
    assert(is_floor_sqrt(s, n));
    if s < r {
        lemma_square_increases(s, r);
    } else if r < s {
        lemma_square_increases(r, s);
    }
}

/// The rounded-down square root of `n`.
pub fn integer_sqrt(n: u128) -> (r: u128)
    ensures
        r == floor_sqrt(n as int),
        is_floor_sqrt(r as int, n as int),
{
    let mut lo: u128 = 0;
    let mut hi: u128 = 0x1_0000_0000_0000_0000;
    assert(0x1_0000_0000_0000_0000int * 0x1_0000_0000_0000_0000int > u128::MAX);
    while hi - lo > 1
        invariant
            lo < hi <= 0x1_0000_0000_0000_0000,
            lo * lo <= n < hi * hi,
        decreases hi - lo,
    {
        let mid: u128 = lo + (hi - lo) / 2;
        assert(mid * mid <= 0xffff_ffff_ffff_ffff * 0xffff_ffff_ffff_ffff) by (nonlinear_arith)
            requires
                0 <= mid <= 0xffff_ffff_ffff_ffff,
        ;
        if mid * mid <= n {
            lo = mid;
        } else {
            hi = mid;
        }
    }
    proof {
        lemma_floor_sqrt_unique(lo as int, n as int);
    }
    lo
}

/// A tile coordinate as a pair of mathematical integers.
pub open spec fn pt(p: (i32, i32)) -> (int, int) {
    (p.0 as int, p.1 as int)
}

/// Squared Euclidean distance between two points whose coordinates are at
/// most one beyond the range of a tile coordinate.
pub(crate) fn wide_distance_squared(a_x: i64, a_y: i64, b_x: i64, b_y: i64) -> (d: u128)
    requires
        i32::MIN - 1 <= a_x <= i32::MAX + 1,
        i32::MIN - 1 <= a_y <= i32::MAX + 1,
        i32::MIN - 1 <= b_x <= i32::MAX + 1,
        i32::MIN - 1 <= b_y <= i32::MAX + 1,
    ensures
        d == dist_sq((a_x as int, a_y as int), (b_x as int, b_y as int)),
        d <= 2 * (0x1_0000_0001 * 0x1_0000_0001),
{
    let dx: i128 = a_x as i128 - b_x as i128;
    let dy: i128 = a_y as i128 - b_y as i128;
    assert(0 <= dx * dx <= 0x1_0000_0001 * 0x1_0000_0001) by (nonlinear_arith)
        requires
            -0x1_0000_0001 <= dx <= 0x1_0000_0001,
    ;
    assert(0 <= dy * dy <= 0x1_0000_0001 * 0x1_0000_0001) by (nonlinear_arith)
        requires
            -0x1_0000_0001 <= dy <= 0x1_0000_0001,
    ;
    (dx * dx + dy * dy) as u128
}

/// Whether the two points are strictly less than `dist` apart, for points
/// whose coordinates are at most one beyond the range of a tile coordinate.
pub(crate) fn wide_within_circle(a_x: i64, a_y: i64, b_x: i64, b_y: i64, dist: i32) -> (inside: bool)
    requires
        i32::MIN - 1 <= a_x <= i32::MAX + 1,
        i32::MIN - 1 <= a_y <= i32::MAX + 1,
        i32::MIN - 1 <= b_x <= i32::MAX + 1,
        i32::MIN - 1 <= b_y <= i32::MAX + 1,
    ensures
        inside == spec_within_circle((a_x as int, a_y as int), (b_x as int, b_y as int), dist as int),
{
    if dist <= 0 {
        return false;
    }
    let r: u128 = dist as u128;
    assert(r * r <= 0x7fff_ffff * 0x7fff_ffff) by (nonlinear_arith)
        requires
            0 <= r <= 0x7fff_ffff,
    ;
    r * r > wide_distance_squared(a_x, a_y, b_x, b_y)
}

/// Squared Euclidean distance between two tile coordinates.
pub fn distance_squared(point_a: (i32, i32), point_b: (i32, i32)) -> (d: u128)
    ensures
        d == dist_sq(pt(point_a), pt(point_b)),
        d <= 2 * (0x1_0000_0001 * 0x1_0000_0001),
{
    wide_distance_squared(point_a.0 as i64, point_a.1 as i64, point_b.0 as i64, point_b.1 as i64)
}

/// Euclidean distance between two tile coordinates, rounded down to a whole
/// number of tiles.
pub fn distance_int_from_point(point_a: (i32, i32), point_b: (i32, i32)) -> (d: u64)
    ensures
        d == floor_sqrt(dist_sq(pt(point_a), pt(point_b))),
{
    let r: u128 = integer_sqrt(distance_squared(point_a, point_b));
    assert(r <= u64::MAX) by {
        if r > u64::MAX {
            lemma_square_increases(0x2_0000_0000, r as int);
            assert(0x2_0000_0001int * 0x2_0000_0001int > 2 * (0x1_0000_0001int * 0x1_0000_0001int));
        }
    }
    r as u64
}

/// Whether `b` lies strictly closer to `a` than `dist` tiles. A point at
/// exactly `dist` tiles is outside.
pub open spec fn spec_within_circle(a: (int, int), b: (int, int), dist: int) -> bool {
    dist > 0 && dist * dist > dist_sq(a, b)
}

/// Returns true if `point_a` and `point_b` are strictly less than `dist`
/// tiles apart.
pub fn within_circle(point_a: (i32, i32), point_b: (i32, i32), dist: i32) -> (inside: bool)
    ensures
        inside == spec_within_circle(pt(point_a), pt(point_b), dist as int),
{
    wide_within_circle(point_a.0 as i64, point_a.1 as i64, point_b.0 as i64, point_b.1 as i64, dist)
}

/// A point at exactly `dist` tiles from the centre is not within the circle.
pub proof fn lemma_circle_excludes_boundary(a: (int, int), b: (int, int), dist: int)
    requires
        dist_sq(a, b) == dist * dist,
    ensures
        !spec_within_circle(a, b, dist),
{
}

/// Being within the circle is the same as the radius exceeding the
/// rounded-down distance.
pub proof fn lemma_circle_by_rounded_distance(a: (int, int), b: (int, int), dist: int)
    ensures
        spec_within_circle(a, b, dist) == (dist > floor_sqrt(dist_sq(a, b))),
{
    let n = dist_sq(a, b);
    assert(n >= 0) by (nonlinear_arith)
        requires
            n == (a.0 - b.0) * (a.0 - b.0) + (a.1 - b.1) * (a.1 - b.1),
    ;
    lemma_floor_sqrt_exists(n);
    let s = floor_sqrt(n);
    if dist > s {
        lemma_square_increases(s, dist);
    } else if dist > 0 {
        if dist < s {
            lemma_square_increases(dist, s);
        }
    }
}

/// Every non-negative integer has a rounded-down square root.
pub proof fn lemma_floor_sqrt_exists(n: int)
    requires
        0 <= n,
    ensures
        is_floor_sqrt(floor_sqrt(n), n),
    decreases n,
{
    if n == 0 {
        assert(is_floor_sqrt(0, 0));
    } else {
        lemma_floor_sqrt_exists(n - 1);
        let r = floor_sqrt(n - 1);
        if (r + 1) * (r + 1) <= n {
            assert((r + 2) * (r + 2) > n) by (nonlinear_arith)
                requires
                    0 <= r,
                    n - 1 < (r + 1) * (r + 1),
            ;
            assert(is_floor_sqrt(r + 1, n));
        } else {
            assert(is_floor_sqrt(r, n));
        }
    }
}

/// Whether `point` lies in the rectangle spanned by `bottom_left` and
/// `top_right`, borders included.
pub open spec fn spec_within_rect(bottom_left: (int, int), top_right: (int, int), point: (int, int)) -> bool {
    bottom_left.0 <= point.0 <= top_right.0 && bottom_left.1 <= point.1 <= top_right.1
}

/// Returns true if `point` is within the rectangle made by `bottom_left` and
/// `top_right`.
pub fn within_rect(bottom_left: (i32, i32), top_right: (i32, i32), point: (i32, i32)) -> (inside: bool)
    ensures
        inside == spec_within_rect(pt(bottom_left), pt(top_right), pt(point)),
{
    let (btm_x, btm_y) = bottom_left;
    let (top_x, top_y) = top_right;
    let (pt_x, pt_y) = point;
    (pt_x >= btm_x && pt_x <= top_x) && (pt_y >= btm_y && pt_y <= top_y)
}

/// Side length of a tile in world units.
pub const TILE_SIZE: i64 = 32;

/// The tile row or column that holds the world coordinate `c`: tiles are
/// centred on multiples of the tile size.
pub open spec fn spec_tile_index(c: int) -> int {
    (c + 16) / 32
}

/// `v` brought into the range of `i32`.
pub open spec fn clamp_i32(v: int) -> int {
    if v < i32::MIN {
        i32::MIN as int
    } else if v > i32::MAX {
        i32::MAX as int
    } else {
        v
    }
}

/// The tile row or column of one world coordinate.
pub fn tile_index(c: i64) -> (t: i32)
    ensures
        t == clamp_i32(spec_tile_index(c as int)),
{
    let shifted: i128 = c as i128 + 16;
    let q: i128 = if shifted >= 0 {
        shifted / 32
    } else {
        -((31 - shifted) / 32)
    };
    assert(q == spec_tile_index(c as int));
    if q < i32::MIN as i128 {
        i32::MIN
    } else if q > i32::MAX as i128 {
        i32::MAX
    } else {
        q as i32
    }
}

/// The tile that holds the world position `(x, y)`.
pub fn get_tile(x: i64, y: i64) -> (tile: (i32, i32))
    ensures
        tile.0 == clamp_i32(spec_tile_index(x as int)),
        tile.1 == clamp_i32(spec_tile_index(y as int)),
{
    (tile_index(x), tile_index(y))
}

/// The world position of the centre of tile `(x, y)`.
pub fn get_world(x: i32, y: i32) -> (world: (i64, i64))
    ensures
        world.0 == x * 32,
        world.1 == y * 32,
{
    (x as i64 * TILE_SIZE, y as i64 * TILE_SIZE)
}

/// The centre of a tile lies in that tile.
pub proof fn lemma_tile_of_world(x: i32, y: i32)
    ensures
        clamp_i32(spec_tile_index(x * 32)) == x,
        clamp_i32(spec_tile_index(y * 32)) == y,
{
}

/// What a tool may still do to a tile.
#[derive(Clone, Copy, Debug, PartialEq, Eq, Structural)]
pub enum TileState {
    /// Scenery; no tool changes it.
    Immutable,
    /// Bare ground.
    Untoiled,
    /// Tilled soil, ready for seeds.
    Toiled,
    /// Soil with seeds in it.
    Planted,
}

impl TileState {
    /// The name of the state.
    pub open spec fn spec_value(self) -> Seq<char> {
        match self {
            TileState::Immutable => "Immutable"@,
            TileState::Untoiled => "Untoiled"@,
            TileState::Toiled => "Toiled"@,
            TileState::Planted => "Planted"@,
        }
    }

    /// The name of the state, as text.
    pub fn value(&self) -> (name: String)
        ensures
            name@ == self.spec_value(),
    {
        match self {
            TileState::Immutable => "Immutable".to_owned(),
            TileState::Untoiled => "Untoiled".to_owned(),
            TileState::Toiled => "Toiled".to_owned(),
            TileState::Planted => "Planted".to_owned(),
        }
    }
}

/// The image drawn for a tile or for a decoration.
#[derive(Clone, Copy, Debug, PartialEq, Eq, Structural)]
pub enum Texture {
    WoodRuined,
    FarmTile,
    Concrete,
    RedGrass,
    SeedsGreen,
    SeedsPink,
    SeedsYellow,
    Torch,
    BaseCorner,
    BaseWall,
    BaseRoof,
}

impl Texture {
    /// Where the image lies among the game's assets.
    pub open spec fn spec_path(self) -> Seq<char> {
        match self {
            Texture::WoodRuined => "tiles/wood_ruined.png"@,
            Texture::FarmTile => "tiles/farmtile.png"@,
            Texture::Concrete => "tiles/concrete.png"@,
            Texture::RedGrass => "tiles/redgrass.png"@,
            Texture::SeedsGreen => "tiles/farmtile_seeds_green.png"@,
            Texture::SeedsPink => "tiles/farmtile_seeds_pink.png"@,
            Texture::SeedsYellow => "tiles/farmtile_seeds_yellow.png"@,
            Texture::Torch => "images/torch.png"@,
            Texture::BaseCorner => "tiles/base_corner.png"@,
            Texture::BaseWall => "tiles/base_wall.png"@,
            Texture::BaseRoof => "tiles/base_roof.png"@,
        }
    }

    /// Where the image lies among the game's assets.
    pub fn path(&self) -> (p: &'static str)
        ensures
            p@ == self.spec_path(),
    {
        match self {
            Texture::WoodRuined => "tiles/wood_ruined.png",
            Texture::FarmTile => "tiles/farmtile.png",
            Texture::Concrete => "tiles/concrete.png",
            Texture::RedGrass => "tiles/redgrass.png",
            Texture::SeedsGreen => "tiles/farmtile_seeds_green.png",
            Texture::SeedsPink => "tiles/farmtile_seeds_pink.png",
            Texture::SeedsYellow => "tiles/farmtile_seeds_yellow.png",
            Texture::Torch => "images/torch.png",
            Texture::BaseCorner => "tiles/base_corner.png",
            Texture::BaseWall => "tiles/base_wall.png",
            Texture::BaseRoof => "tiles/base_roof.png",
        }
    }
}

/// A position in world units.
#[derive(Clone, Copy, Debug, PartialEq, Eq, Structural)]
pub struct Position {
    pub x: i64,
    pub y: i64,
}

/// The world position of the centre of tile `(x, y)`.
pub open spec fn spec_world(x: int, y: int) -> Position {
    Position { x: (x * 32) as i64, y: (y * 32) as i64 }
}

/// The tile that holds the world position `position`.
pub open spec fn spec_tile_of(position: Position) -> (int, int) {
    (clamp_i32(spec_tile_index(position.x as int)), clamp_i32(spec_tile_index(position.y as int)))
}

/// One tile of the map: its state, its image and where it is drawn.
#[derive(Clone, Copy, Debug, PartialEq, Eq, Structural)]
pub struct TileBundle {
    pub state: TileState,
    pub texture: Texture,
    pub position: Position,
}

impl TileBundle {
    /// The tile at tile coordinate `(x, y)` with the given image and state.
    pub fn new(texture: Texture, x: i32, y: i32, state: TileState) -> (tile: TileBundle)
        ensures
            tile == (TileBundle { state, texture, position: spec_world(x as int, y as int) }),
    {
        let (x, y) = get_world(x, y);
        TileBundle { state, texture, position: Position { x, y } }
    }
}

} // verus!
