//! Which music follows which phase of the day.

use vstd::prelude::*;
use crate::game::DayPhase;

verus! {

/// A change of music: which of the two tracks fades in and starts over,
/// while the other fades out.
#[derive(Clone, Copy, Debug, PartialEq, Eq, Structural)]
pub enum MusicCue {
    /// The day track comes in, the night track goes out.
    DayTrack,
    /// The night track comes in, the day track goes out.
    NightTrack,
}

/// The change of music that the start of a phase asks for.
pub open spec fn spec_music_cue(event: DayPhase) -> Option<MusicCue> {
    match event {
        DayPhase::Dawn => Some(MusicCue::DayTrack),
        DayPhase::Dusk => Some(MusicCue::NightTrack),
        _ => None,
    }
}

/// Decides what the start of the phase `event` does to the music: dawn
/// brings in the day track, dusk the night track, and the start of day or
/// night changes nothing.
pub fn instance_control(event: DayPhase) -> (cue: Option<MusicCue>)
    ensures
        cue == spec_music_cue(event),
{
    match event {
        DayPhase::Dawn => Some(MusicCue::DayTrack),
        DayPhase::Dusk => Some(MusicCue::NightTrack),
        _ => None,
    }
}

} // verus!
