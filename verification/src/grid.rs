//! The tile grid: one tile for every cell of a rectangle, stored column by
//! column and addressed by tile coordinate.

use vstd::prelude::*;
use crate::map::{spec_world, Texture, TileBundle, TileState};

verus! {

/// Where cell `(x, y)` is stored in a grid whose columns hold `num_y` cells.
pub open spec fn cell_index(num_y: int, x: int, y: int) -> int {
    x * num_y + y
}

/// Cells of one grid never share a slot, and every slot is within the grid.
pub proof fn lemma_cell_index(num_x: int, num_y: int, x: int, y: int)
    by (nonlinear_arith)
    requires
        0 <= x < num_x,
        0 <= y < num_y,
    ensures
        0 <= cell_index(num_y, x, y) < num_x * num_y,
        x * num_y <= cell_index(num_y, x, y) < (x + 1) * num_y,
{
}

/// Two different cells are stored in different slots.
pub proof fn lemma_cell_index_injective(num_y: int, x1: int, y1: int, x2: int, y2: int)
    by (nonlinear_arith)
    requires
        0 <= y1 < num_y,
        0 <= y2 < num_y,
        cell_index(num_y, x1, y1) == cell_index(num_y, x2, y2),
    ensures
        x1 == x2,
        y1 == y2,
{
    if x1 < x2 {
        assert((x1 + 1) * num_y <= x2 * num_y);
    } else if x2 < x1 {
        assert((x2 + 1) * num_y <= x1 * num_y);
    }
}

/// Cells are stored in the order of their coordinates: column by column, and
/// within a column from the bottom row up.
pub proof fn lemma_cell_index_ordered(num_y: int, x1: int, y1: int, x2: int, y2: int)
    by (nonlinear_arith)
    requires
        0 <= y1 < num_y,
        0 <= y2 <= num_y,
        x1 < x2 || (x1 == x2 && y1 < y2),
    ensures
        cell_index(num_y, x1, y1) < cell_index(num_y, x2, y2),
{
    if x1 < x2 {
        assert((x1 + 1) * num_y <= x2 * num_y);
    }
}

/// A rectangle of tiles, exactly one for every tile coordinate in it.
pub struct TileGrid {
    num_x: i32,
    num_y: i32,
    tiles: Vec<TileBundle>,
}

impl View for TileGrid {
    type V = Map<(int, int), TileBundle>;

    /// The tile at each coordinate of the grid.
    closed spec fn view(&self) -> Map<(int, int), TileBundle> {
        Map::new(
            |p: (int, int)| 0 <= p.0 < self.num_x && 0 <= p.1 < self.num_y,
            |p: (int, int)| self.tiles@[cell_index(self.num_y as int, p.0, p.1)],
        )
    }
}

impl TileGrid {
    /// Number of columns.
    pub closed spec fn spec_num_x(&self) -> int {
        self.num_x as int
    }

    /// Number of rows.
    pub closed spec fn spec_num_y(&self) -> int {
        self.num_y as int
    }

    /// Whether `(x, y)` is a coordinate of this grid.
    pub open spec fn contains(&self, x: int, y: int) -> bool {
        0 <= x < self.spec_num_x() && 0 <= y < self.spec_num_y()
    }

    /// The grid holds one tile per coordinate, each drawn at the world
    /// position of its coordinate.
    pub closed spec fn wf(&self) -> bool {
        &&& 0 <= self.num_x
        &&& 0 <= self.num_y
        &&& self.tiles@.len() == self.num_x * self.num_y
        &&& forall|x: int, y: int|
            0 <= x < self.num_x && 0 <= y < self.num_y ==> (#[trigger] self.tiles@[cell_index(
                self.num_y as int,
                x,
                y,
            )]).position == spec_world(x, y)
    }

    /// In a well-formed grid the tiles are exactly those of the coordinates
    /// of the grid, and each is drawn where its coordinate lies.
    pub proof fn lemma_view(&self)
        requires
            self.wf(),
        ensures
            0 <= self.spec_num_x() <= i32::MAX,
            0 <= self.spec_num_y() <= i32::MAX,
            forall|x: int, y: int| self@.dom().contains((x, y)) <==> self.contains(x, y),
            forall|x: int, y: int|
                self.contains(x, y) ==> (#[trigger] self@[(x, y)]).position == spec_world(x, y),
    {
    }

    /// Number of columns.
    pub fn num_x(&self) -> (n: i32)
        ensures
            n == self.spec_num_x(),
    {
        self.num_x
    }

    /// Number of rows.
    pub fn num_y(&self) -> (n: i32)
        ensures
            n == self.spec_num_y(),
    {
        self.num_y
    }

    /// A grid of `num_x` columns and `num_y` rows in which every tile has the
    /// given state and image. A count below zero is taken as zero.
    pub fn filled(num_x: i32, num_y: i32, state: TileState, texture: Texture) -> (grid: TileGrid)
        requires
            num_x > 0 && num_y > 0 ==> num_x * num_y <= usize::MAX,
        ensures
            grid.wf(),
            grid.spec_num_x() == if num_x > 0 { num_x as int } else { 0 },
            grid.spec_num_y() == if num_y > 0 { num_y as int } else { 0 },
            forall|x: int, y: int|
                0 <= x < num_x && 0 <= y < num_y ==> #[trigger] grid@[(x, y)] == (TileBundle {
                    state,
                    texture,
                    position: spec_world(x, y),
                }),
    {
        let nx: i32 = if num_x > 0 { num_x } else { 0 };
        let ny: i32 = if num_y > 0 { num_y } else { 0 };
        let mut tiles: Vec<TileBundle> = Vec::new();
        let mut x: i32 = 0;
        while x < nx
            invariant
                0 <= x <= nx,
                0 <= ny,
                nx > 0 && ny > 0 ==> nx * ny <= usize::MAX,
                tiles@.len() == x * ny,
                forall|a: int, b: int|
                    0 <= a < x && 0 <= b < ny ==> #[trigger] tiles@[cell_index(ny as int, a, b)] == (
                    TileBundle { state, texture, position: spec_world(a, b) }),
            decreases nx - x,
        {
            let mut y: i32 = 0;
            while y < ny
                invariant
                    0 <= x < nx,
                    0 <= y <= ny,
                    nx * ny <= usize::MAX,
                    tiles@.len() == x * ny + y,
                    forall|a: int, b: int|
                        0 <= b < ny && (0 <= a < x || (a == x && b < y)) ==> #[trigger] tiles@[cell_index(
                            ny as int,
                            a,
                            b,
                        )] == (TileBundle { state, texture, position: spec_world(a, b) }),
                decreases ny - y,
            {
                let ghost before = tiles@;
                tiles.push(TileBundle::new(texture, x, y, state));
                assert forall|a: int, b: int|
                    0 <= b < ny && (0 <= a < x || (a == x && b < y + 1)) implies #[trigger] tiles@[cell_index(
                    ny as int,
                    a,
                    b,
                )] == (TileBundle { state, texture, position: spec_world(a, b) }) by {
                    if a == x && b == y {
                    } else {
                        lemma_cell_index_ordered(ny as int, a, b, x as int, y as int);
                        lemma_cell_index(x as int + 1, ny as int, a, b);
                        assert(tiles@[cell_index(ny as int, a, b)] == before[cell_index(ny as int, a, b)]);
                    }
                }
                y = y + 1;
            }
            assert(x * ny + ny == (x + 1) * ny) by (nonlinear_arith);
            x = x + 1;
        }
        TileGrid { num_x: nx, num_y: ny, tiles }
    }

    /// The slot of cell `(x, y)` in the tile vector.
    fn slot(&self, x: i32, y: i32) -> (i: usize)
        requires
            self.wf(),
            0 <= x < self.num_x,
            0 <= y < self.num_y,
        ensures
            i == cell_index(self.num_y as int, x as int, y as int),
            i < self.tiles@.len(),
    {
        proof {
            lemma_cell_index(self.num_x as int, self.num_y as int, x as int, y as int);
        }
        let slots: usize = self.tiles.len();
        let column: usize = x as usize;
        let rows: usize = self.num_y as usize;
        assert(column * rows == (x as int) * (self.num_y as int)) by (nonlinear_arith)
            requires
                column == x,
                rows == self.num_y,
        ;
        column * rows + y as usize
    }

    /// The tile at `(x, y)`, if the grid has that coordinate.
    pub fn get(&self, x: i32, y: i32) -> (tile: Option<TileBundle>)
        requires
            self.wf(),
        ensures
            self.contains(x as int, y as int) ==> tile == Some(self@[(x as int, y as int)]),
            !self.contains(x as int, y as int) ==> tile is None,
    {
        if 0 <= x && x < self.num_x && 0 <= y && y < self.num_y {
            let i: usize = self.slot(x, y);
            Some(self.tiles[i])
        } else {
            None
        }
    }

    /// Replaces the tile at `(x, y)` by one with the given state and image.
    /// A coordinate outside the grid matches no tile, and nothing changes.
    pub fn set(&mut self, x: i32, y: i32, state: TileState, texture: Texture) -> (replaced: bool)
        requires
            old(self).wf(),
        ensures
            final(self).wf(),
            final(self).spec_num_x() == old(self).spec_num_x(),
            final(self).spec_num_y() == old(self).spec_num_y(),
            replaced == old(self).contains(x as int, y as int),
            replaced ==> final(self)@ == old(self)@.insert(
                (x as int, y as int),
                (TileBundle { state, texture, position: spec_world(x as int, y as int) }),
            ),
            !replaced ==> final(self)@ == old(self)@,
    {
        if 0 <= x && x < self.num_x && 0 <= y && y < self.num_y {
            let i: usize = self.slot(x, y);
            let tile: TileBundle = TileBundle::new(texture, x, y, state);
            self.tiles.set(i, tile);
            proof {
                let ny = self.num_y as int;
                assert forall|a: int, b: int|
                    0 <= a < self.num_x && 0 <= b < self.num_y implies (#[trigger] self.tiles@[cell_index(
                    ny,
                    a,
                    b,
                )]).position == spec_world(a, b) by {
                    lemma_cell_index(self.num_x as int, ny, a, b);
                    if cell_index(ny, a, b) == cell_index(ny, x as int, y as int) {
                        lemma_cell_index_injective(ny, a, b, x as int, y as int);
                    }
                }
                assert forall|p: (int, int)| old(self)@.insert((x as int, y as int), tile).dom().contains(p)
                    implies #[trigger] self@[p] == old(self)@.insert((x as int, y as int), tile)[p] by {
                    lemma_cell_index(self.num_x as int, ny, p.0, p.1);
                    if cell_index(ny, p.0, p.1) == cell_index(ny, x as int, y as int) {
                        lemma_cell_index_injective(ny, p.0, p.1, x as int, y as int);
                    }
                }
                assert(self@ =~= old(self)@.insert((x as int, y as int), tile));
            }
            true
        } else {
            false
        }
    }
}

} // verus!
