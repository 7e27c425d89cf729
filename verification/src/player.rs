//! The player: the tool in hand, what the keys do, and what a click with a
//! tool does to the tile under the pointer.

use vstd::prelude::*;
use crate::grid::TileGrid;
use crate::map::{get_tile, get_world, spec_tile_of, spec_world, Position, Texture, TileBundle, TileState};
use crate::spriteanims::{FrameRect, HumanAnimState};

verus! {

/// Walking speed in world units per second.
pub const MOVE_SPEED: u32 = 90;

/// Number of seed images among which a planted tile picks one.
pub const SEED_VARIANTS: u32 = 3;

/// The tool in the player's hand.
#[derive(Clone, Copy, Debug, PartialEq, Eq, Structural)]
pub enum PlayerTool {
    Tiller,
    Planter,
    Rake,
}

/// The seed image for the pick `pick`.
pub open spec fn spec_seed_texture(pick: int) -> Texture {
    if pick == 0 {
        Texture::SeedsGreen
    } else if pick == 1 {
        Texture::SeedsPink
    } else {
        Texture::SeedsYellow
    }
}

/// The seed image for the pick `pick`.
pub fn seed_texture(pick: u32) -> (texture: Texture)
    ensures
        texture == spec_seed_texture(pick as int),
{
    match pick {
        0 => Texture::SeedsGreen,
        1 => Texture::SeedsPink,
        _ => Texture::SeedsYellow,
    }
}

/// What `tool` makes of a tile in the state `state`: the state and image of
/// the tile that replaces it, or `None` where the tool does nothing. The
/// tiller turns bare ground into soil, the planter puts seeds into soil with
/// the image picked by `pick`, and the rake turns everything but scenery
/// back into bare ground.
pub open spec fn spec_use_tool(state: TileState, tool: PlayerTool, pick: int) -> Option<(TileState, Texture)> {
    match tool {
        PlayerTool::Tiller => if state == TileState::Untoiled {
            Some((TileState::Toiled, Texture::FarmTile))
        } else {
            None
        },
        PlayerTool::Planter => if state == TileState::Toiled {
            Some((TileState::Planted, spec_seed_texture(pick)))
        } else {
            None
        },
        PlayerTool::Rake => if state == TileState::Immutable {
            None
        } else {
            Some((TileState::Untoiled, Texture::RedGrass))
        },
    }
}

/// What `tool` makes of a tile in the state `state`, with `pick` choosing
/// the seed image.
pub fn use_tool(state: TileState, tool: PlayerTool, pick: u32) -> (replacement: Option<(TileState, Texture)>)
    ensures
        replacement == spec_use_tool(state, tool, pick as int),
{
    match tool {
        PlayerTool::Tiller => match state {
            TileState::Untoiled => Some((TileState::Toiled, Texture::FarmTile)),
            _ => None,
        },
        PlayerTool::Planter => match state {
            TileState::Toiled => Some((TileState::Planted, seed_texture(pick))),
            _ => None,
        },
        PlayerTool::Rake => match state {
            TileState::Immutable => None,
            _ => Some((TileState::Untoiled, Texture::RedGrass)),
        },
    }
}

/// The state of a tile after `tool` was used on it.
pub open spec fn spec_next_state(state: TileState, tool: PlayerTool) -> TileState {
    match spec_use_tool(state, tool, 0) {
        Some((next, _)) => next,
        None => state,
    }
}

/// Scenery stays scenery: no tool does anything to an immutable tile.
pub proof fn lemma_immutable_never_changes(tool: PlayerTool, pick: int)
    ensures
        spec_use_tool(TileState::Immutable, tool, pick) is None,
        spec_next_state(TileState::Immutable, tool) == TileState::Immutable,
{
}

/// The pick decides the image of a planted tile and nothing else: the state
/// that a tool leaves does not depend on it, and only seeds come out of
/// planting.
pub proof fn lemma_pick_only_chooses_seeds(state: TileState, tool: PlayerTool, pick: int)
    ensures
        spec_use_tool(state, tool, pick) is Some <==> spec_use_tool(state, tool, 0) is Some,
        spec_use_tool(state, tool, pick) matches Some((next, texture)) ==> {
            &&& next == spec_next_state(state, tool)
            &&& next == TileState::Planted ==> texture == Texture::SeedsGreen || texture == Texture::SeedsPink
                || texture == Texture::SeedsYellow
        },
{
}

/// Each of the three seed images is the image of some pick below the number
/// of variants.
pub proof fn lemma_every_seed_is_reachable()
    ensures
        spec_seed_texture(0) == Texture::SeedsGreen,
        spec_seed_texture(1) == Texture::SeedsPink,
        spec_seed_texture(2) == Texture::SeedsYellow,
        2 < SEED_VARIANTS,
{
}

/// Where the pointer is, in world units.
#[derive(Clone, Copy, Debug, PartialEq, Eq, Structural)]
pub struct MyWorldCoords(pub Position);

/// A click on the tile at a tile coordinate with a tool in hand.
#[derive(Clone, Copy, Debug, PartialEq, Eq)]
pub struct ClickEvent(pub (i32, i32), pub PlayerTool);

/// Turns a press of the pointer button into a click on the tile under the
/// pointer. Without a player, and so without a tool, or without a fresh
/// press there is no click.
pub fn mouse_tile_select(tool: Option<PlayerTool>, mouse: &MyWorldCoords, just_pressed: bool) -> (click: Option<
    ClickEvent,
>)
    ensures
        click == match tool {
            Some(tool) if just_pressed => {
                let tile = spec_tile_of(mouse.0);
                Some(ClickEvent((tile.0 as i32, tile.1 as i32), tool))
            },
            _ => None,
        },
{
    match tool {
        Some(tool) => {
            if just_pressed {
                let mouse_tile: (i32, i32) = get_tile(mouse.0.x, mouse.0.y);
                Some(ClickEvent((mouse_tile.0, mouse_tile.1), tool))
            } else {
                None
            }
        },
        None => None,
    }
}

/// Where the highlight is drawn: on the centre of the tile under the
/// pointer.
pub fn render_tile_highlight(mouse: &MyWorldCoords) -> (highlight: Position)
    ensures
        highlight == spec_world(spec_tile_of(mouse.0).0, spec_tile_of(mouse.0).1),
{
    let (x, y) = get_tile(mouse.0.x, mouse.0.y);
    let (x, y) = get_world(x, y);
    Position { x, y }
}

/// The tile that replaces the clicked one, where the click hits a tile of
/// the grid and the tool does something to it.
pub open spec fn spec_click_result(tiles: Map<(int, int), TileBundle>, click: ClickEvent, pick: int) -> Option<
    TileBundle,
> {
    let p = (click.0.0 as int, click.0.1 as int);
    if tiles.dom().contains(p) {
        match spec_use_tool(tiles[p].state, click.1, pick) {
            Some((state, texture)) => Some(TileBundle { state, texture, position: spec_world(p.0, p.1) }),
            None => None,
        }
    } else {
        None
    }
}

/// The tiles after the click: the clicked tile is replaced where the tool
/// does something to it; a click beside the grid or without effect leaves
/// every tile as it is.
pub open spec fn spec_apply_click(tiles: Map<(int, int), TileBundle>, click: ClickEvent, pick: int) -> Map<
    (int, int),
    TileBundle,
> {
    match spec_click_result(tiles, click, pick) {
        Some(tile) => tiles.insert((click.0.0 as int, click.0.1 as int), tile),
        None => tiles,
    }
}

/// A click keeps the grid in shape: the tiles stay on the same coordinates,
/// one on each; no tile but the clicked one changes; scenery never changes;
/// and a tile that is replaced is drawn where the old one was.
pub proof fn lemma_click_keeps_the_grid(tiles: Map<(int, int), TileBundle>, click: ClickEvent, pick: int)
    ensures
        spec_apply_click(tiles, click, pick).dom() == tiles.dom(),
        forall|p: (int, int)|
            tiles.dom().contains(p) && (p != (click.0.0 as int, click.0.1 as int) || tiles[p].state
                == TileState::Immutable) ==> #[trigger] spec_apply_click(tiles, click, pick)[p] == tiles[p],
        forall|p: (int, int)|
            tiles.dom().contains(p) && tiles[p].position == spec_world(p.0, p.1) ==> (#[trigger] spec_apply_click(
                tiles,
                click,
                pick,
            )[p]).position == spec_world(p.0, p.1),
{
    let p = (click.0.0 as int, click.0.1 as int);
    let after = spec_apply_click(tiles, click, pick);
    assert(after.dom() =~= tiles.dom());
}

/// Applies one click to the grid, with `pick` choosing the seed image, and
/// returns the tile that replaced the clicked one, if any.
pub fn apply_click(grid: &mut TileGrid, click: &ClickEvent, pick: u32) -> (replacement: Option<TileBundle>)
    requires
        old(grid).wf(),
    ensures
        final(grid).wf(),
        final(grid).spec_num_x() == old(grid).spec_num_x(),
        final(grid).spec_num_y() == old(grid).spec_num_y(),
        final(grid)@ == spec_apply_click(old(grid)@, *click, pick as int),
        replacement == spec_click_result(old(grid)@, *click, pick as int),
{
    proof {
        grid.lemma_view();
    }
    let (x, y) = click.0;
    match grid.get(x, y) {
        Some(tile) => match use_tool(tile.state, click.1, pick) {
            Some((state, texture)) => {
                grid.set(x, y, state, texture);
                Some(TileBundle::new(texture, x, y, state))
            },
            None => None,
        },
        None => None,
    }
}

/// The tiles after all of `clicks` were applied in order, the `i`-th with
/// the pick `picks[i]`.
pub open spec fn spec_apply_clicks(tiles: Map<(int, int), TileBundle>, clicks: Seq<ClickEvent>, picks: Seq<int>) -> Map<
    (int, int),
    TileBundle,
>
    decreases clicks.len(),
{
    if clicks.len() == 0 {
        tiles
    } else {
        spec_apply_click(
            spec_apply_clicks(tiles, clicks.drop_last(), picks.drop_last()),
            clicks.last(),
            picks.last(),
        )
    }
}

/// The replacement tiles that `clicks` produce, in order, when applied as in
/// `spec_apply_clicks`.
pub open spec fn spec_replacements(tiles: Map<(int, int), TileBundle>, clicks: Seq<ClickEvent>, picks: Seq<int>) -> Seq<
    TileBundle,
>
    decreases clicks.len(),
{
    if clicks.len() == 0 {
        Seq::empty()
    } else {
        let before = spec_apply_clicks(tiles, clicks.drop_last(), picks.drop_last());
        let earlier = spec_replacements(tiles, clicks.drop_last(), picks.drop_last());
        match spec_click_result(before, clicks.last(), picks.last()) {
            Some(tile) => earlier.push(tile),
            None => earlier,
        }
    }
}

/// `picks` holds one pick for each of `count` clicks, each below the number
/// of seed variants.
pub open spec fn spec_valid_picks(picks: Seq<int>, count: nat) -> bool {
    &&& picks.len() == count
    &&& forall|i: int| 0 <= i < picks.len() ==> 0 <= #[trigger] picks[i] < SEED_VARIANTS
}

/// Draws a number below `bound` from the generator of the current thread:
/// `rand::thread_rng` and then `Rng::gen_range` on the range from zero up to
/// but without `bound`. The range is not empty, so `gen_range` does not
/// panic, and it returns a member of the range. Nothing is said of which.
#[verifier::external_body]
fn random_below(bound: u32) -> (pick: u32)
    requires
        bound > 0,
    ensures
        pick < bound,
{
    rand::Rng::gen_range(&mut rand::thread_rng(), 0..bound)
}

/// Applies the clicks of one frame to the grid, one after the other, and
/// returns the tiles that replaced clicked ones, in order. Each click draws
/// its own pick at random for the seed image, so a tile planted here gets one
/// of the three seed images; everything else is fixed by the clicks.
pub fn react_to_mouse_event(grid: &mut TileGrid, clicks: &Vec<ClickEvent>) -> (replaced: Vec<TileBundle>)
    requires
        old(grid).wf(),
    ensures
        final(grid).wf(),
        final(grid).spec_num_x() == old(grid).spec_num_x(),
        final(grid).spec_num_y() == old(grid).spec_num_y(),
        exists|picks: Seq<int>|
            {
                &&& #[trigger] spec_valid_picks(picks, clicks@.len())
                &&& final(grid)@ == spec_apply_clicks(old(grid)@, clicks@, picks)
                &&& replaced@ == spec_replacements(old(grid)@, clicks@, picks)
            },
{
    let mut replaced: Vec<TileBundle> = Vec::new();
    let ghost mut picks: Seq<int> = Seq::empty();
    let mut i: usize = 0;
    while i < clicks.len()
        invariant
            i <= clicks@.len(),
            grid.wf(),
            grid.spec_num_x() == old(grid).spec_num_x(),
            grid.spec_num_y() == old(grid).spec_num_y(),
            spec_valid_picks(picks, i as nat),
            grid@ == spec_apply_clicks(old(grid)@, clicks@.subrange(0, i as int), picks),
            replaced@ == spec_replacements(old(grid)@, clicks@.subrange(0, i as int), picks),
        decreases clicks@.len() - i,
    {
        let pick: u32 = random_below(SEED_VARIANTS);
        let ghost earlier = picks;
        proof {
            picks = picks.push(pick as int);
            assert(picks.drop_last() =~= earlier);
            assert(clicks@.subrange(0, i + 1).drop_last() =~= clicks@.subrange(0, i as int));
            assert(clicks@.subrange(0, i + 1).last() == clicks@[i as int]);
        }
        match apply_click(grid, &clicks[i], pick) {
            Some(tile) => {
                replaced.push(tile);
            },
            None => {},
        }
        i = i + 1;
    }
    assert(clicks@.subrange(0, i as int) =~= clicks@);
    replaced
}

/// The keys that matter to the player in one frame.
#[derive(Clone, Copy, Debug, PartialEq, Eq, Structural)]
pub struct PlayerKeys {
    /// Held down: walk up.
    pub up: bool,
    /// Held down: walk down.
    pub down: bool,
    /// Held down: walk right.
    pub right: bool,
    /// Held down: walk left.
    pub left: bool,
    /// Pressed in this frame: take the tiller.
    pub tiller: bool,
    /// Pressed in this frame: take the planter.
    pub planter: bool,
    /// Pressed in this frame: take the rake.
    pub rake: bool,
    /// Held down: swing the hoe.
    pub attack: bool,
}

/// What the keys of one frame do to the player.
#[derive(Clone, Copy, Debug, PartialEq, Eq, Structural)]
pub struct PlayerUpdate {
    /// The frame of the sprite sheet to draw, for the direction in which the
    /// player looked before this frame.
    pub rect: FrameRect,
    /// Steps to the right, in units of the distance walked in one frame.
    pub dx: i8,
    /// Steps up, in the same units.
    pub dy: i8,
    /// The direction in which the player looks now.
    pub facing: HumanAnimState,
    /// The tool in hand now.
    pub tool: PlayerTool,
    /// Whether a swing of the hoe begins.
    pub swing: bool,
}

/// The direction in which the player looks after the keys: that of the last
/// held key in the order up, down, right, left, or the old one.
pub open spec fn spec_facing(facing: HumanAnimState, keys: PlayerKeys) -> HumanAnimState {
    if keys.left {
        HumanAnimState::FaceLeft
    } else if keys.right {
        HumanAnimState::FaceRight
    } else if keys.down {
        HumanAnimState::FaceDown
    } else if keys.up {
        HumanAnimState::FaceUp
    } else {
        facing
    }
}

/// The tool in hand after the keys: that of the last pressed key in the
/// order tiller, planter, rake, or the old one.
pub open spec fn spec_tool(tool: PlayerTool, keys: PlayerKeys) -> PlayerTool {
    if keys.rake {
        PlayerTool::Rake
    } else if keys.planter {
        PlayerTool::Planter
    } else if keys.tiller {
        PlayerTool::Tiller
    } else {
        tool
    }
}

/// One if `held`, else nothing.
pub open spec fn spec_step(held: bool) -> int {
    if held {
        1
    } else {
        0
    }
}

/// What the keys of one frame do to a player who looks towards `facing` and
/// holds `tool`: opposite keys cancel, the player looks where the last held
/// key points, and a swing begins if the key is held and the last swing is
/// over.
pub fn player_input(facing: HumanAnimState, tool: PlayerTool, attack_finished: bool, keys: &PlayerKeys) -> (update:
    PlayerUpdate)
    ensures
        update.rect == facing.spec_rect(),
        update.dx == spec_step(keys.right) - spec_step(keys.left),
        update.dy == spec_step(keys.up) - spec_step(keys.down),
        update.facing == spec_facing(facing, *keys),
        update.tool == spec_tool(tool, *keys),
        update.swing == (keys.attack && attack_finished),
{
    let rect: FrameRect = facing.getRect();
    let mut state: HumanAnimState = facing;
    let mut dx: i8 = 0;
    let mut dy: i8 = 0;
    if keys.up {
        state = HumanAnimState::FaceUp;
        dy = dy + 1;
    }
    if keys.down {
        state = HumanAnimState::FaceDown;
        dy = dy - 1;
    }
    if keys.right {
        state = HumanAnimState::FaceRight;
        dx = dx + 1;
    }
    if keys.left {
        state = HumanAnimState::FaceLeft;
        dx = dx - 1;
    }
    let mut hand: PlayerTool = tool;
    if keys.tiller {
        hand = PlayerTool::Tiller;
    }
    if keys.planter {
        hand = PlayerTool::Planter;
    }
    if keys.rake {
        hand = PlayerTool::Rake;
    }
    PlayerUpdate { rect, dx, dy, facing: state, tool: hand, swing: keys.attack && attack_finished }
}

} // verus!
