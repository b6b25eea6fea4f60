//! The sounds of the speaker as patterns of beeps.

use vstd::prelude::*;

verus! {

/// The length of a short beep, in milliseconds.
pub const SHORT_BEEP_MS: u64 = 100;

/// The length of a long beep, in milliseconds.
pub const LONG_BEEP_MS: u64 = 500;

/// The type of sound the speaker should make.
#[derive(Clone, Copy, Debug, PartialEq, Eq, Structural)]
pub enum SoundType {
    /// A short single beep.
    ShortBeep,
    /// A long single beep.
    LongBeep,
    /// A beep with a custom defined duration in milliseconds.
    Beep(u64),
    /// Repeat the short beep X times.
    RepeartShortBeep(u8),
    /// Repeat the long beep X times.
    RepeartLongBeep(u8),
    /// Repeat a custom duration beep X times.
    RepeatBeep(u8, u64),
}

/// A number of beeps of one length, each followed by a pause of that length.
#[derive(Clone, Copy, Debug, PartialEq, Eq, Structural)]
pub struct BeepPattern {
    /// How many beeps.
    pub times: u8,
    /// How long the speaker is on, and then off, in milliseconds.
    pub duration_ms: u64,
}

/// The beeps of a sound.
pub open spec fn pattern_of(sound: SoundType) -> BeepPattern {
    match sound {
        SoundType::ShortBeep => BeepPattern { times: 1, duration_ms: SHORT_BEEP_MS },
        SoundType::LongBeep => BeepPattern { times: 1, duration_ms: LONG_BEEP_MS },
        SoundType::Beep(duration) => BeepPattern { times: 1, duration_ms: duration },
        SoundType::RepeartShortBeep(times) => BeepPattern { times, duration_ms: SHORT_BEEP_MS },
        SoundType::RepeartLongBeep(times) => BeepPattern { times, duration_ms: LONG_BEEP_MS },
        SoundType::RepeatBeep(times, duration) => BeepPattern { times, duration_ms: duration },
    }
}

/// The beeps to play for a sound.
pub fn sound(t: SoundType) -> (pattern: BeepPattern)
    ensures
        pattern == pattern_of(t),
{
    match t {
        SoundType::ShortBeep => BeepPattern { times: 1, duration_ms: SHORT_BEEP_MS },
        SoundType::LongBeep => BeepPattern { times: 1, duration_ms: LONG_BEEP_MS },
        SoundType::Beep(duration) => BeepPattern { times: 1, duration_ms: duration },
        SoundType::RepeartShortBeep(times) => BeepPattern { times, duration_ms: SHORT_BEEP_MS },
        SoundType::RepeartLongBeep(times) => BeepPattern { times, duration_ms: LONG_BEEP_MS },
        SoundType::RepeatBeep(times, duration) => BeepPattern { times, duration_ms: duration },
    }
}

} // verus!
