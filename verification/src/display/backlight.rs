//! The backlight rule: the darker the room, the longer each row is lit.

use vstd::prelude::*;

verus! {

/// The shortest time between two samples of the light sensor, in
/// milliseconds.
pub const SAMPLE_INTERVAL_MS: u64 = 1000;

/// The row on-times in microseconds, the dimmest first.
pub const LIGHT_LEVELS: [u64; 5] = [10, 100, 300, 700, 1000];

/// The lowest reading of the second brightest level.
pub const BRIGHT_FROM: u16 = 3750;

/// The lowest reading of the middle level.
pub const MEDIUM_FROM: u16 = 3800;

/// The lowest reading of the second dimmest level.
pub const DIM_FROM: u16 = 3850;

/// The lowest reading of the dimmest level.
pub const DIMMEST_FROM: u16 = 3900;

/// One of the five duty levels of the panel.
#[derive(Clone, Copy, Debug, PartialEq, Eq, Structural)]
pub enum BacklightLevel {
    /// Rows are lit for 10 microseconds.
    Dimmest,
    /// Rows are lit for 100 microseconds.
    Dim,
    /// Rows are lit for 300 microseconds.
    Medium,
    /// Rows are lit for 700 microseconds.
    Bright,
    /// Rows are lit for 1000 microseconds.
    Brightest,
}

/// The level for a reading of the light sensor. Each bucket starts at its
/// lower bound and ends just below the next one.
pub open spec fn level_of(reading: u16) -> BacklightLevel {
    if reading < BRIGHT_FROM {
        BacklightLevel::Brightest
    } else if reading < MEDIUM_FROM {
        BacklightLevel::Bright
    } else if reading < DIM_FROM {
        BacklightLevel::Medium
    } else if reading < DIMMEST_FROM {
        BacklightLevel::Dim
    } else {
        BacklightLevel::Dimmest
    }
}

/// The time a row is lit at a level, in microseconds.
pub open spec fn on_time_of(level: BacklightLevel) -> u64 {
    match level {
        BacklightLevel::Dimmest => 10,
        BacklightLevel::Dim => 100,
        BacklightLevel::Medium => 300,
        BacklightLevel::Bright => 700,
        BacklightLevel::Brightest => 1000,
    }
}

impl BacklightLevel {
    /// The level for a reading of the light sensor.
    pub fn from_reading(reading: u16) -> (level: BacklightLevel)
        ensures
            level == level_of(reading),
    {
        if reading < BRIGHT_FROM {
            BacklightLevel::Brightest
        } else if reading < MEDIUM_FROM {
            BacklightLevel::Bright
        } else if reading < DIM_FROM {
            BacklightLevel::Medium
        } else if reading < DIMMEST_FROM {
            BacklightLevel::Dim
        } else {
            BacklightLevel::Dimmest
        }
    }

    /// The time a row is lit at this level, in microseconds.
    pub fn on_time_us(&self) -> (us: u64)
        ensures
            us == on_time_of(*self),
    {
        match self {
            BacklightLevel::Dimmest => LIGHT_LEVELS[0],
            BacklightLevel::Dim => LIGHT_LEVELS[1],
            BacklightLevel::Medium => LIGHT_LEVELS[2],
            BacklightLevel::Bright => LIGHT_LEVELS[3],
            BacklightLevel::Brightest => LIGHT_LEVELS[4],
        }
    }
}

/// The state of the backlight loop: the level in use and the time of the last
/// sample, in milliseconds.
#[derive(Clone, Copy, Debug, PartialEq, Eq, Structural)]
pub struct Backlight {
    /// The level in use.
    pub level: BacklightLevel,
    /// When the sensor was last sampled.
    pub last_read_ms: u64,
}

/// Whether a sample is due: auto brightness is on and a full interval has
/// passed since the last sample.
pub open spec fn sample_due(state: Backlight, now_ms: u64, autolight: bool) -> bool {
    now_ms - state.last_read_ms >= SAMPLE_INTERVAL_MS && autolight
}

impl Backlight {
    /// The loop's state at `now_ms`: the second brightest level, and the
    /// sensor counts as sampled now.
    pub fn new(now_ms: u64) -> (state: Backlight)
        ensures
            state == (Backlight { level: BacklightLevel::Bright, last_read_ms: now_ms }),
    {
        Backlight { level: BacklightLevel::Bright, last_read_ms: now_ms }
    }

    /// Whether the sensor is to be sampled now. The clock does not run
    /// backwards.
    pub fn due(&self, now_ms: u64, autolight: bool) -> (due: bool)
        requires
            self.last_read_ms <= now_ms,
        ensures
            due == sample_due(*self, now_ms, autolight),
    {
        now_ms - self.last_read_ms >= SAMPLE_INTERVAL_MS && autolight
    }

    /// Take in a sample taken at `now_ms`. Returns the on-time to use.
    pub fn sampled(&mut self, now_ms: u64, reading: u16) -> (us: u64)
        ensures
            *final(self) == (Backlight { level: level_of(reading), last_read_ms: now_ms }),
            us == on_time_of(level_of(reading)),
    {
        self.level = BacklightLevel::from_reading(reading);
        self.last_read_ms = now_ms;
        self.level.on_time_us()
    }

    /// One round of the loop at `now_ms`: if a sample is due, `reading` is
    /// taken in; else the level stays. Returns the on-time to use.
    pub fn update(&mut self, now_ms: u64, autolight: bool, reading: u16) -> (us: u64)
        requires
            old(self).last_read_ms <= now_ms,
        ensures
            *final(self) == (if sample_due(*old(self), now_ms, autolight) {
                Backlight { level: level_of(reading), last_read_ms: now_ms }
            } else {
                *old(self)
            }),
            us == on_time_of(final(self).level),
    {
        if self.due(now_ms, autolight) {
            self.sampled(now_ms, reading)
        } else {
            self.level.on_time_us()
        }
    }
}

/// Darker ambient light never gives a shorter on-time.
pub proof fn lemma_darker_is_brighter(darker: u16, lighter: u16)
    requires
        darker <= lighter,
    ensures
        on_time_of(level_of(darker)) >= on_time_of(level_of(lighter)),
{
}

/// A reading at a bucket's lower bound belongs to that bucket, and the
/// reading just below it to the brighter one.
pub proof fn lemma_bucket_bounds()
    ensures
        level_of((BRIGHT_FROM - 1) as u16) == BacklightLevel::Brightest,
        level_of(BRIGHT_FROM) == BacklightLevel::Bright,
        level_of((MEDIUM_FROM - 1) as u16) == BacklightLevel::Bright,
        level_of(MEDIUM_FROM) == BacklightLevel::Medium,
        level_of((DIM_FROM - 1) as u16) == BacklightLevel::Medium,
        level_of(DIM_FROM) == BacklightLevel::Dim,
        level_of((DIMMEST_FROM - 1) as u16) == BacklightLevel::Dim,
        level_of(DIMMEST_FROM) == BacklightLevel::Dimmest,
{
}

/// Without auto brightness, or within one interval of the last sample, the
/// level stays whatever the sensor reads.
pub proof fn lemma_level_retained(state: Backlight, now_ms: u64, autolight: bool)
    requires
        state.last_read_ms <= now_ms,
        !autolight || now_ms - state.last_read_ms < SAMPLE_INTERVAL_MS,
    ensures
        !sample_due(state, now_ms, autolight),
{
}

} // verus!
