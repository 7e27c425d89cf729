//! The lighting pass: how bright each sprite is drawn, from the light of
//! the sky and from the nearest torch.

use vstd::prelude::*;
use crate::game::{lemma_levels_in_range, spec_brightness, spec_event, spec_torch_multiplier};
use crate::game::{DayNightCycle, DayPhase, LightLevel};
use crate::map::{dist_sq, floor_sqrt, pt, spec_tile_of};
use crate::map::{distance_int_from_point, get_tile, Position};

verus! {

/// A light brightens tiles that are fewer than this many tiles away.
pub const TORCH_REACH: u64 = 7;

/// The lights of the map: the four torches and the three lights of the base.
pub open spec fn spec_light_sources() -> Seq<(i32, i32)> {
    seq![
        (7i32, 6i32),
        (7i32, 15i32),
        (33i32, 6i32),
        (33i32, 15i32),
        (13i32, 3i32),
        (20i32, 3i32),
        (27i32, 3i32),
    ]
}

/// The lights of the map.
pub fn light_sources() -> (lights: Vec<(i32, i32)>)
    ensures
        lights@ == spec_light_sources(),
{
    let mut lights: Vec<(i32, i32)> = Vec::new();
    lights.push((7, 6));
    lights.push((7, 15));
    lights.push((33, 6));
    lights.push((33, 15));
    lights.push((13, 3));
    lights.push((20, 3));
    lights.push((27, 3));
    assert(lights@ =~= spec_light_sources());
    lights
}

/// Distance in whole tiles, rounded down, from `tile` to `light`.
pub open spec fn spec_light_distance(tile: (int, int), light: (i32, i32)) -> int {
    floor_sqrt(dist_sq(pt(light), tile))
}

/// The smallest rounded-down distance from `tile` to one of `lights`, or
/// `None` where there is no light.
pub open spec fn spec_nearest(tile: (int, int), lights: Seq<(i32, i32)>) -> Option<int>
    decreases lights.len(),
{
    if lights.len() == 0 {
        None
    } else {
        let d = spec_light_distance(tile, lights.last());
        match spec_nearest(tile, lights.drop_last()) {
            Some(m) if m <= d => Some(m),
            _ => Some(d),
        }
    }
}

/// `spec_nearest` is the minimum: no light is nearer, and some light is at
/// that distance. Without lights it is `None`.
pub proof fn lemma_nearest_is_minimum(tile: (int, int), lights: Seq<(i32, i32)>)
    ensures
        lights.len() == 0 <==> spec_nearest(tile, lights) is None,
        forall|i: int|
            0 <= i < lights.len() ==> spec_nearest(tile, lights)->0 <= #[trigger] spec_light_distance(
                tile,
                lights[i],
            ),
        lights.len() > 0 ==> exists|i: int|
            0 <= i < lights.len() && spec_nearest(tile, lights)->0 == #[trigger] spec_light_distance(
                tile,
                lights[i],
            ),
    decreases lights.len(),
{
    if lights.len() > 0 {
        let rest = lights.drop_last();
        lemma_nearest_is_minimum(tile, rest);
        let d = spec_light_distance(tile, lights.last());
        let best = spec_nearest(tile, lights)->0;
        assert forall|i: int| 0 <= i < lights.len() implies best <= #[trigger] spec_light_distance(
            tile,
            lights[i],
        ) by {
            if i < rest.len() {
                assert(rest[i] == lights[i]);
            }
        }
        if best == d {
            assert(spec_light_distance(tile, lights[lights.len() - 1]) == best);
        } else {
            let i = choose|i: int|
                0 <= i < rest.len() && spec_nearest(tile, rest)->0 == #[trigger] spec_light_distance(
                    tile,
                    rest[i],
                );
            assert(rest[i] == lights[i]);
            assert(spec_light_distance(tile, lights[i]) == best);
        }
    }
}

/// Rounded-down distance from `tile` to the nearest of `lights`, or `None`
/// where there is no light.
pub fn nearest_light_distance(tile: (i32, i32), lights: &Vec<(i32, i32)>) -> (nearest: Option<u64>)
    ensures
        spec_nearest(pt(tile), lights@) == match nearest {
            Some(d) => Some(d as int),
            None => None,
        },
{
    let mut nearest: Option<u64> = None;
    let mut i: usize = 0;
    while i < lights.len()
        invariant
            i <= lights@.len(),
            spec_nearest(pt(tile), lights@.subrange(0, i as int)) == match nearest {
                Some(d) => Some(d as int),
                None => None,
            },
        decreases lights@.len() - i,
    {
        let d: u64 = distance_int_from_point(lights[i], tile);
        assert(lights@.subrange(0, i + 1).drop_last() =~= lights@.subrange(0, i as int));
        assert(lights@.subrange(0, i + 1).last() == lights@[i as int]);
        nearest = match nearest {
            Some(m) => if m <= d {
                Some(m)
            } else {
                Some(d)
            },
            None => Some(d),
        };
        i = i + 1;
    }
    assert(lights@.subrange(0, i as int) =~= lights@);
    nearest
}

/// By how much a tile is brightened whose nearest light is `nearest` tiles
/// away, in units of `1 / (10 * denom)`, while torches shine with the
/// strength `numer / denom`: one, plus a tenth of the strength for every
/// tile that the light is nearer than its reach.
pub open spec fn spec_torch_factor(nearest: Option<int>, numer: int, denom: int) -> int {
    match nearest {
        Some(d) if d < TORCH_REACH => 10 * denom + (TORCH_REACH - d) * numer,
        _ => 10 * denom,
    }
}

/// A light never darkens a tile: the nearer it is, the more it adds.
pub proof fn lemma_torch_factor_monotone(near: int, far: int, numer: int, denom: int)
    by (nonlinear_arith)
    requires
        near <= far,
        0 <= numer,
    ensures
        spec_torch_factor(Some(near), numer, denom) >= spec_torch_factor(Some(far), numer, denom),
        spec_torch_factor(Some(far), numer, denom) >= spec_torch_factor(None, numer, denom),
{
}

/// A light at its reach or beyond adds nothing: the factor is exactly one.
pub proof fn lemma_torch_factor_out_of_reach(distance: int, numer: int, denom: int)
    requires
        distance >= TORCH_REACH,
    ensures
        spec_torch_factor(Some(distance), numer, denom) == 10 * denom,
        spec_torch_factor(None, numer, denom) == 10 * denom,
{
}

/// A light adds at most seven tenths of its strength: while the strength is
/// between nothing and one, the factor is between 1 and 1.7.
pub proof fn lemma_torch_factor_in_range(nearest: Option<int>, numer: int, denom: int)
    by (nonlinear_arith)
    requires
        nearest is Some ==> nearest->0 >= 0,
        0 <= numer <= denom,
    ensures
        10 * denom <= spec_torch_factor(nearest, numer, denom) <= 17 * denom,
{
}

/// The brightness of a tile whose nearest light is `nearest` tiles away, at
/// `elapsed` ticks into a day of `period` ticks: the light of the sky times
/// the torch factor. Nothing caps it; near a torch at night it exceeds the
/// light of the sky.
pub open spec fn spec_tile_brightness(elapsed: int, period: int, nearest: Option<int>) -> LightLevel {
    LightLevel {
        numer: (spec_brightness(elapsed, period) * spec_torch_factor(
            nearest,
            spec_torch_multiplier(elapsed, period),
            2 * period,
        )) as u128,
        denom: (4000 * period * period) as u128,
    }
}

/// However near a light is and whatever the hour, a tile is at least as
/// bright as the sky at night and at most 1.7 times as bright as the sky by
/// day.
pub proof fn lemma_tile_brightness_in_range(elapsed: int, period: int, nearest: Option<int>)
    requires
        0 <= elapsed < period,
        nearest is Some ==> nearest->0 >= 0,
    ensures
        ({
            let level = spec_brightness(elapsed, period) * spec_torch_factor(
                nearest,
                spec_torch_multiplier(elapsed, period),
                2 * period,
            );
            60 * (40 * period * period) <= level <= 255 * (40 * period * period)
        }),
{
    lemma_levels_in_range(elapsed, period);
    let sky = spec_brightness(elapsed, period);
    let torch = spec_torch_factor(nearest, spec_torch_multiplier(elapsed, period), 2 * period);
    lemma_torch_factor_in_range(nearest, spec_torch_multiplier(elapsed, period), 2 * period);
    assert(60 * (40 * period * period) <= sky * torch <= 255 * (40 * period * period)) by (nonlinear_arith)
        requires
            0 < period,
            120 * period <= sky <= 300 * period,
            20 * period <= torch <= 34 * period,
    ;
}

/// The colour that tints a sprite.
#[derive(Clone, Copy, Debug, PartialEq, Eq, Structural)]
pub struct Tint {
    pub red: LightLevel,
    pub green: LightLevel,
    pub blue: LightLevel,
    pub alpha: LightLevel,
}

/// The tint of a sprite of the brightness `level`: the same level of red,
/// green and blue, and full alpha.
pub open spec fn spec_tint(level: LightLevel) -> Tint {
    Tint { red: level, green: level, blue: level, alpha: LightLevel { numer: 1, denom: 1 } }
}

impl DayNightCycle {
    /// By how much a tile is brightened now whose nearest light is `nearest`
    /// tiles away.
    pub fn torch_factor(&self, nearest: Option<u64>) -> (level: LightLevel)
        requires
            self.wf(),
        ensures
            level.numer == spec_torch_factor(
                match nearest {
                    Some(d) => Some(d as int),
                    None => None,
                },
                spec_torch_multiplier(self.spec_elapsed(), self.spec_period()),
                2 * self.spec_period(),
            ),
            level.denom == 20 * self.spec_period(),
    {
        proof {
            self.lemma_bounds();
            lemma_levels_in_range(self.spec_elapsed(), self.spec_period());
        }
        let multiplier: LightLevel = self.torch_multiplier();
        let one: u128 = 10 * multiplier.denom;
        let numer: u128 = match nearest {
            Some(d) => if d < TORCH_REACH {
                let steps: u128 = (TORCH_REACH - d) as u128;
                assert(steps * multiplier.numer <= 7 * multiplier.numer) by (nonlinear_arith)
                    requires
                        0 <= steps <= 7,
                        0 <= multiplier.numer,
                ;
                one + steps * multiplier.numer
            } else {
                one
            },
            None => one,
        };
        LightLevel { numer, denom: one }
    }

    /// The brightness now of the tile `tile`, lit by the sky and by the
    /// nearest of `lights`.
    pub fn tile_brightness(&self, tile: (i32, i32), lights: &Vec<(i32, i32)>) -> (level: LightLevel)
        requires
            self.wf(),
        ensures
            level == spec_tile_brightness(
                self.spec_elapsed(),
                self.spec_period(),
                spec_nearest(pt(tile), lights@),
            ),
    {
        proof {
            self.lemma_bounds();
        }
        let sky: LightLevel = self.brightness();
        let nearest: Option<u64> = nearest_light_distance(tile, lights);
        let torch: LightLevel = self.torch_factor(nearest);
        let ghost d = self.spec_period();
        proof {
            lemma_levels_in_range(self.spec_elapsed(), d);
            lemma_torch_factor_in_range(
                spec_nearest(pt(tile), lights@),
                spec_torch_multiplier(self.spec_elapsed(), d),
                2 * d,
            );
        }
        assert(sky.numer * torch.numer <= (300 * d) * (34 * d)) by (nonlinear_arith)
            requires
                0 <= sky.numer <= 300 * d,
                0 <= torch.numer <= 34 * d,
        ;
        assert((300 * d) * (34 * d) <= 10200 * 0x1_0000_0000 * 0x1_0000_0000) by (nonlinear_arith)
            requires
                0 <= d <= 0x1_0000_0000,
        ;
        assert(sky.denom * torch.denom == 4000 * d * d) by (nonlinear_arith)
            requires
                sky.denom == 200 * d,
                torch.denom == 20 * d,
        ;
        assert(4000 * d * d <= 4000 * 0x1_0000_0000 * 0x1_0000_0000) by (nonlinear_arith)
            requires
                0 <= d <= 0x1_0000_0000,
        ;
        LightLevel { numer: sky.numer * torch.numer, denom: sky.denom * torch.denom }
    }
}

/// What one frame of the day/night cycle gives: the event to send, if any,
/// and the tint of every sprite.
pub struct FrameLighting {
    pub event: Option<DayPhase>,
    pub colors: Vec<Tint>,
}

/// Runs the day/night cycle for one frame: advances the clock by `delta`
/// ticks, tells which phase began, and tints a sprite at each of `positions`
/// by the light of the sky at the new time and by the lights of the map.
pub fn update_day_night_cycle(day_night_cycle: &mut DayNightCycle, delta: u64, positions: &Vec<Position>) -> (frame:
    FrameLighting)
    requires
        old(day_night_cycle).wf(),
    ensures
        final(day_night_cycle).wf(),
        final(day_night_cycle).spec_period() == old(day_night_cycle).spec_period(),
        final(day_night_cycle).spec_elapsed() == (old(day_night_cycle).spec_elapsed() + delta) % old(
            day_night_cycle,
        ).spec_period(),
        frame.event == spec_event(
            old(day_night_cycle).spec_elapsed(),
            final(day_night_cycle).spec_elapsed(),
            old(day_night_cycle).spec_period(),
        ),
        frame.colors@.len() == positions@.len(),
        forall|i: int|
            0 <= i < positions@.len() ==> #[trigger] frame.colors@[i] == spec_tint(
                spec_tile_brightness(
                    final(day_night_cycle).spec_elapsed(),
                    final(day_night_cycle).spec_period(),
                    spec_nearest(spec_tile_of(positions@[i]), spec_light_sources()),
                ),
            ),
{
    let event: Option<DayPhase> = day_night_cycle.tick(delta);
    let lights: Vec<(i32, i32)> = light_sources();
    let mut colors: Vec<Tint> = Vec::new();
    let mut i: usize = 0;
    while i < positions.len()
        invariant
            i <= positions@.len(),
            day_night_cycle.wf(),
            lights@ == spec_light_sources(),
            colors@.len() == i,
            forall|k: int|
                0 <= k < i ==> #[trigger] colors@[k] == spec_tint(
                    spec_tile_brightness(
                        day_night_cycle.spec_elapsed(),
                        day_night_cycle.spec_period(),
                        spec_nearest(spec_tile_of(positions@[k]), spec_light_sources()),
                    ),
                ),
        decreases positions@.len() - i,
    {
        let position: Position = positions[i];
        let tile: (i32, i32) = get_tile(position.x, position.y);
        let level: LightLevel = day_night_cycle.tile_brightness(tile, &lights);
        colors.push(Tint { red: level, green: level, blue: level, alpha: LightLevel { numer: 1, denom: 1 } });
        i = i + 1;
    }
    FrameLighting { event, colors }
}

} // verus!
