//! The map painter: which terrain each cell of the grid gets, and the
//! decorations laid over the map.

use vstd::prelude::*;
use crate::map::{spec_within_circle, spec_within_rect, wide_within_circle, within_circle, within_rect};
use crate::map::{spec_world, Position, Texture, TileBundle, TileState};
use crate::grid::TileGrid;

verus! {

/// Radius, in tiles, of the ruins around each corner of the grid.
pub const CORNER_RADIUS: i32 = 5;

/// Radius, in tiles, of the tilled field around the centre of the grid.
pub const FARM_RADIUS: i32 = 4;

/// Half of `n`, rounded towards zero.
pub open spec fn spec_half(n: int) -> int {
    if n >= 0 {
        n / 2
    } else {
        -((-n) / 2)
    }
}

/// Half of `n`, rounded towards zero.
pub fn half(n: i32) -> (h: i32)
    ensures
        h == spec_half(n as int),
{
    if n >= 0 {
        n / 2
    } else if n == i32::MIN {
        -1073741824
    } else {
        -((-n) / 2)
    }
}

/// What the painter puts on a cell. The variants are listed in the order in
/// which the painter tries them; the first that fits wins.
#[derive(Clone, Copy, Debug, PartialEq, Eq, Structural)]
pub enum Terrain {
    /// Ruined wood near a corner of the grid.
    Ruin,
    /// The tilled field in the middle.
    Farm,
    /// The concrete floor of the house.
    House,
    /// A concrete slab that carries a torch.
    TorchSite,
    /// Grass, where nothing else fits.
    Grass,
}

impl Terrain {
    /// The state of a tile of this terrain.
    pub open spec fn spec_state(self) -> TileState {
        match self {
            Terrain::Ruin => TileState::Immutable,
            Terrain::Farm => TileState::Toiled,
            Terrain::House => TileState::Immutable,
            Terrain::TorchSite => TileState::Immutable,
            Terrain::Grass => TileState::Untoiled,
        }
    }

    /// The image of a tile of this terrain.
    pub open spec fn spec_texture(self) -> Texture {
        match self {
            Terrain::Ruin => Texture::WoodRuined,
            Terrain::Farm => Texture::FarmTile,
            Terrain::House => Texture::Concrete,
            Terrain::TorchSite => Texture::Concrete,
            Terrain::Grass => Texture::RedGrass,
        }
    }

    /// The state of a tile of this terrain.
    pub fn state(&self) -> (s: TileState)
        ensures
            s == self.spec_state(),
    {
        match self {
            Terrain::Ruin => TileState::Immutable,
            Terrain::Farm => TileState::Toiled,
            Terrain::House => TileState::Immutable,
            Terrain::TorchSite => TileState::Immutable,
            Terrain::Grass => TileState::Untoiled,
        }
    }

    /// The image of a tile of this terrain.
    pub fn texture(&self) -> (t: Texture)
        ensures
            t == self.spec_texture(),
    {
        match self {
            Terrain::Ruin => Texture::WoodRuined,
            Terrain::Farm => Texture::FarmTile,
            Terrain::House => Texture::Concrete,
            Terrain::TorchSite => Texture::Concrete,
            Terrain::Grass => Texture::RedGrass,
        }
    }
}

/// Whether `p` lies strictly within the corner radius of one of the four
/// corners of a grid of `num_x` by `num_y` cells.
pub open spec fn near_corner(num_x: int, num_y: int, p: (int, int)) -> bool {
    ||| spec_within_circle((0, 0), p, CORNER_RADIUS as int)
    ||| spec_within_circle((0, num_y - 1), p, CORNER_RADIUS as int)
    ||| spec_within_circle((num_x - 1, 0), p, CORNER_RADIUS as int)
    ||| spec_within_circle((num_x - 1, num_y - 1), p, CORNER_RADIUS as int)
}

/// Whether `p` lies strictly within the farm radius of the middle cell.
pub open spec fn in_farm(num_x: int, num_y: int, p: (int, int)) -> bool {
    spec_within_circle((spec_half(num_x), spec_half(num_y)), p, FARM_RADIUS as int)
}

/// Whether `p` lies on the footprint of the house.
pub open spec fn in_house(p: (int, int)) -> bool {
    spec_within_rect((6, 0), (34, 3), p)
}

/// Whether `p` is one of the four cells that carry a torch.
pub open spec fn is_torch_site(p: (int, int)) -> bool {
    (p.0 == 7 || p.0 == 33) && (p.1 == 6 || p.1 == 15)
}

/// The terrain of cell `p` in a grid of `num_x` by `num_y` cells.
pub open spec fn spec_terrain(num_x: int, num_y: int, p: (int, int)) -> Terrain {
    if near_corner(num_x, num_y, p) {
        Terrain::Ruin
    } else if in_farm(num_x, num_y, p) {
        Terrain::Farm
    } else if in_house(p) {
        Terrain::House
    } else if is_torch_site(p) {
        Terrain::TorchSite
    } else {
        Terrain::Grass
    }
}

/// The terrain of cell `(x, y)` in a grid of `num_x` by `num_y` cells.
/// A coordinate outside the grid is classified by the same rules.
pub fn terrain_at(num_x: i32, num_y: i32, x: i32, y: i32) -> (terrain: Terrain)
    ensures
        terrain == spec_terrain(num_x as int, num_y as int, (x as int, y as int)),
{
    let p_x: i64 = x as i64;
    let p_y: i64 = y as i64;
    let last_x: i64 = num_x as i64 - 1;
    let last_y: i64 = num_y as i64 - 1;
    if wide_within_circle(0, 0, p_x, p_y, CORNER_RADIUS) || wide_within_circle(0, last_y, p_x, p_y, CORNER_RADIUS)
        || wide_within_circle(last_x, 0, p_x, p_y, CORNER_RADIUS) || wide_within_circle(
        last_x,
        last_y,
        p_x,
        p_y,
        CORNER_RADIUS,
    ) {
        Terrain::Ruin
    } else if within_circle((half(num_x), half(num_y)), (x, y), FARM_RADIUS) {
        Terrain::Farm
    } else if within_rect((6, 0), (34, 3), (x, y)) {
        Terrain::House
    } else if (x == 7 || x == 33) && (y == 6 || y == 15) {
        Terrain::TorchSite
    } else {
        Terrain::Grass
    }
}

/// A decoration drawn over the map. It is no tile and no tool touches it.
#[derive(Clone, Copy, Debug, PartialEq, Eq)]
pub struct Overlay {
    pub texture: Texture,
    /// World position of the centre.
    pub x: i64,
    pub y: i64,
    /// Drawing layer; tiles are on layer 0.
    pub z: i32,
    /// Rotation about the centre, in degrees, counter-clockwise.
    pub angle: i32,
    /// Where the decoration stands for the lighting; `None` if the light of
    /// the day does not touch it.
    pub position: Option<Position>,
}

/// The torch that stands on the torch site `p`.
pub open spec fn spec_torch(p: (int, int)) -> Overlay {
    Overlay {
        texture: Texture::Torch,
        x: (p.0 * 32) as i64,
        y: (p.1 * 32) as i64,
        z: 1,
        angle: 0,
        position: None,
    }
}

/// The torch on `p` if `p` is a cell of the grid that the painter made a
/// torch site, and nothing otherwise.
pub open spec fn spec_torch_if(num_x: int, num_y: int, p: (int, int)) -> Seq<Overlay> {
    if 0 <= p.0 < num_x && 0 <= p.1 < num_y && spec_terrain(num_x, num_y, p) == Terrain::TorchSite {
        seq![spec_torch(p)]
    } else {
        Seq::empty()
    }
}

/// The torches of a grid of `num_x` by `num_y` cells.
pub open spec fn spec_torches(num_x: int, num_y: int) -> Seq<Overlay> {
    spec_torch_if(num_x, num_y, (7, 6)) + spec_torch_if(num_x, num_y, (7, 15)) + spec_torch_if(
        num_x,
        num_y,
        (33, 6),
    ) + spec_torch_if(num_x, num_y, (33, 15))
}

/// Image of the piece of a base that lies `dx` columns and `dy` rows from
/// its centre: corners at the upper ends, walls along the sides and the top,
/// roof inside.
pub open spec fn spec_piece_texture(dx: int, dy: int) -> Texture {
    if dx == -3 || dx == 3 {
        if dy == 1 {
            Texture::BaseCorner
        } else {
            Texture::BaseWall
        }
    } else if dy == 1 {
        Texture::BaseWall
    } else {
        Texture::BaseRoof
    }
}

/// Rotation of that piece: the left side is turned by a quarter, the right
/// wall by a quarter the other way, everything else is upright.
pub open spec fn spec_piece_angle(dx: int, dy: int) -> int {
    if dx == -3 {
        90
    } else if dx == 3 && dy != 1 {
        -90
    } else {
        0
    }
}

/// The piece of the base centred on tile `(cx, cy)` that lies `dx` columns
/// and `dy` rows from the centre.
pub open spec fn spec_piece(cx: int, cy: int, dx: int, dy: int) -> Overlay {
    Overlay {
        texture: spec_piece_texture(dx, dy),
        x: ((cx + dx) * 32) as i64,
        y: ((cy + dy) * 32) as i64,
        z: 5,
        angle: spec_piece_angle(dx, dy) as i32,
        position: Some(Position { x: -10i64, y: -10i64 }),
    }
}

/// The pieces of the base centred on tile `(cx, cy)`: seven columns by three
/// rows, from the top row down and in each row from left to right.
pub open spec fn spec_base(cx: int, cy: int) -> Seq<Overlay> {
    Seq::new(21, |i: int| spec_piece(cx, cy, i % 7 - 3, 1 - i / 7))
}

/// The pieces of the base centred on tile `(cx, cy)`.
pub fn base_overlays(cx: i32, cy: i32) -> (pieces: Vec<Overlay>)
    ensures
        pieces@ == spec_base(cx as int, cy as int),
{
    let mut pieces: Vec<Overlay> = Vec::new();
    let mut i: i64 = 0;
    while i < 21
        invariant
            0 <= i <= 21,
            pieces@.len() == i,
            forall|k: int|
                0 <= k < i ==> #[trigger] pieces@[k] == spec_piece(cx as int, cy as int, k % 7 - 3, 1 - k / 7),
        decreases 21 - i,
    {
        let dx: i64 = i % 7 - 3;
        let dy: i64 = 1 - i / 7;
        let texture: Texture = if dx == -3 || dx == 3 {
            if dy == 1 {
                Texture::BaseCorner
            } else {
                Texture::BaseWall
            }
        } else if dy == 1 {
            Texture::BaseWall
        } else {
            Texture::BaseRoof
        };
        let angle: i32 = if dx == -3 {
            90
        } else if dx == 3 && dy != 1 {
            -90
        } else {
            0
        };
        pieces.push(
            Overlay {
                texture,
                x: (cx as i64 + dx) * 32,
                y: (cy as i64 + dy) * 32,
                z: 5,
                angle,
                position: Some(Position { x: -10, y: -10 }),
            },
        );
        i = i + 1;
    }
    pieces
}

/// All decorations of a grid of `num_x` by `num_y` cells: its torches, then
/// the two bases.
pub open spec fn spec_overlays(num_x: int, num_y: int) -> Seq<Overlay> {
    spec_torches(num_x, num_y) + spec_base(13, 1) + spec_base(27, 1)
}

/// The tile that the painter puts on cell `(x, y)`.
pub open spec fn spec_painted_tile(num_x: int, num_y: int, x: int, y: int) -> TileBundle {
    let terrain = spec_terrain(num_x, num_y, (x, y));
    TileBundle { state: terrain.spec_state(), texture: terrain.spec_texture(), position: spec_world(x, y) }
}

/// The painted map: the grid of tiles and the decorations over it.
pub struct Background {
    pub grid: TileGrid,
    pub overlays: Vec<Overlay>,
}

/// `bg` is the map that the painter makes for a grid of `num_x` by `num_y`
/// cells: one tile on every cell, chosen by the terrain of the cell, and the
/// decorations of that grid.
pub open spec fn is_painting(bg: Background, num_x: int, num_y: int) -> bool {
    &&& bg.grid.wf()
    &&& bg.grid.spec_num_x() == if num_x > 0 { num_x } else { 0 }
    &&& bg.grid.spec_num_y() == if num_y > 0 { num_y } else { 0 }
    &&& forall|x: int, y: int|
        0 <= x < num_x && 0 <= y < num_y ==> #[trigger] bg.grid@[(x, y)] == spec_painted_tile(
            num_x,
            num_y,
            x,
            y,
        )
    &&& bg.overlays@ == spec_overlays(num_x, num_y)
}

/// Appends the torch of site `(x, y)` if the painter made that cell a torch
/// site of the grid.
fn push_torch(overlays: &mut Vec<Overlay>, num_x: i32, num_y: i32, x: i32, y: i32)
    ensures
        final(overlays)@ == old(overlays)@ + spec_torch_if(num_x as int, num_y as int, (x as int, y as int)),
{
    if 0 <= x && x < num_x && 0 <= y && y < num_y && terrain_at(num_x, num_y, x, y) == Terrain::TorchSite {
        overlays.push(
            Overlay {
                texture: Texture::Torch,
                x: x as i64 * 32,
                y: y as i64 * 32,
                z: 1,
                angle: 0,
                position: None,
            },
        );
        assert(overlays@ =~= old(overlays)@ + seq![spec_torch((x as int, y as int))]);
    } else {
        assert(overlays@ =~= old(overlays)@ + Seq::<Overlay>::empty());
    }
}

/// Appends all of `more` to `overlays`.
fn push_all(overlays: &mut Vec<Overlay>, more: &Vec<Overlay>)
    ensures
        final(overlays)@ == old(overlays)@ + more@,
{
    let mut i: usize = 0;
    while i < more.len()
        invariant
            i <= more@.len(),
            overlays@ == old(overlays)@ + more@.subrange(0, i as int),
        decreases more@.len() - i,
    {
        overlays.push(more[i]);
        i = i + 1;
        assert(overlays@ =~= old(overlays)@ + more@.subrange(0, i as int));
    }
    assert(more@.subrange(0, i as int) =~= more@);
}

/// Paints the map for a grid of `num_x` columns and `num_y` rows: one tile
/// on every cell and the decorations over them. A count below one gives a
/// map without tiles.
pub fn draw_background(num_x: i32, num_y: i32) -> (bg: Background)
    requires
        num_x > 0 && num_y > 0 ==> num_x * num_y <= usize::MAX,
    ensures
        is_painting(bg, num_x as int, num_y as int),
{
    let mut grid: TileGrid = TileGrid::filled(num_x, num_y, TileState::Untoiled, Texture::RedGrass);
    let mut x: i32 = 0;
    while x < num_x
        invariant
            0 <= x,
            num_x > 0 ==> x <= num_x,
            grid.wf(),
            grid.spec_num_x() == if num_x > 0 { num_x as int } else { 0 },
            grid.spec_num_y() == if num_y > 0 { num_y as int } else { 0 },
            forall|a: int, b: int|
                0 <= a < x && 0 <= b < num_y ==> #[trigger] grid@[(a, b)] == spec_painted_tile(
                    num_x as int,
                    num_y as int,
                    a,
                    b,
                ),
        decreases num_x - x,
    {
        let mut y: i32 = 0;
        while y < num_y
            invariant
                0 <= x < num_x,
                0 <= y,
                num_y > 0 ==> y <= num_y,
                grid.wf(),
                grid.spec_num_x() == num_x,
                grid.spec_num_y() == if num_y > 0 { num_y as int } else { 0 },
                forall|a: int, b: int|
                    0 <= b < num_y && (0 <= a < x || (a == x && b < y)) ==> #[trigger] grid@[(a, b)]
                        == spec_painted_tile(num_x as int, num_y as int, a, b),
            decreases num_y - y,
        {
            let terrain: Terrain = terrain_at(num_x, num_y, x, y);
            grid.set(x, y, terrain.state(), terrain.texture());
            y = y + 1;
        }
        x = x + 1;
    }
    let mut overlays: Vec<Overlay> = Vec::new();
    push_torch(&mut overlays, num_x, num_y, 7, 6);
    push_torch(&mut overlays, num_x, num_y, 7, 15);
    push_torch(&mut overlays, num_x, num_y, 33, 6);
    push_torch(&mut overlays, num_x, num_y, 33, 15);
    assert(overlays@ =~= spec_torches(num_x as int, num_y as int));
    let first: Vec<Overlay> = base_overlays(13, 1);
    push_all(&mut overlays, &first);
    let second: Vec<Overlay> = base_overlays(27, 1);
    push_all(&mut overlays, &second);
    Background { grid, overlays }
}

/// Painting is a function of the grid's size alone: any two maps painted for
/// the same size have the same tile on every cell and the same decorations.
pub proof fn lemma_painting_is_deterministic(first: Background, second: Background, num_x: int, num_y: int)
    requires
        is_painting(first, num_x, num_y),
        is_painting(second, num_x, num_y),
    ensures
        first.grid@ == second.grid@,
        first.overlays@ == second.overlays@,
{
    first.grid.lemma_view();
    second.grid.lemma_view();
    assert forall|p: (int, int)| first.grid@.dom().contains(p) == second.grid@.dom().contains(p) by {
        assert(first.grid@.dom().contains((p.0, p.1)) <==> first.grid.contains(p.0, p.1));
        assert(second.grid@.dom().contains((p.0, p.1)) <==> second.grid.contains(p.0, p.1));
    }
    assert forall|p: (int, int)| first.grid@.dom().contains(p) implies first.grid@[p] == second.grid@[p] by {
        assert(first.grid@.dom().contains((p.0, p.1)) <==> first.grid.contains(p.0, p.1));
        assert(first.grid@[(p.0, p.1)] == spec_painted_tile(num_x, num_y, p.0, p.1));
        assert(second.grid@[(p.0, p.1)] == spec_painted_tile(num_x, num_y, p.0, p.1));
    }
    assert(first.grid@ =~= second.grid@);
}

} // verus!
