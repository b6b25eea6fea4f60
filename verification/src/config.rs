//! The settings a user can change, and their bytes in flash.

use vstd::prelude::*;

verus! {

/// The size of the flash sector that holds the settings.
pub const ERASE_SIZE: usize = 4096;

/// Where the hourly ring flag stands in the sector.
pub const HOURLY_RING: usize = 10;

/// Where the colon preference stands in the sector.
pub const TIME_COLON_PREF: usize = 20;

/// Where the temperature preference stands in the sector.
pub const TEMP_PREF: usize = 30;

/// Where the temperature scroll flag stands in the sector.
pub const AUTO_SCROLL_TEMP: usize = 40;

/// Where the time preference stands in the sector.
pub const TIME_PREF: usize = 50;

/// Where the auto brightness flag stands in the sector.
pub const AUTOLIGHT: usize = 60;

/// The byte of a flag that is off.
pub const FALSE_BYTES: u8 = 0x00;

/// The byte of a flag that is on.
pub const TRUE_BYTES: u8 = 0x01;

/// Temperature preference representation.
#[derive(Clone, Copy, Debug, PartialEq, Eq, Structural)]
pub enum TemperaturePreference {
    /// Celcius.
    Celcius,
    /// Fahrenheit.
    Fahrenheit,
}

/// Time preference representation.
#[derive(Clone, Copy, Debug, PartialEq, Eq, Structural)]
pub enum TimePreference {
    /// 12hr.
    Twelve,
    /// 24hr.
    TwentyFour,
}

/// Time colon preference representation.
#[derive(Clone, Copy, Debug, PartialEq, Eq, Structural)]
pub enum TimeColonPreference {
    /// Do not blink the colon.
    Solid,
    /// Blink the colon.
    Blink,
    /// Show the alternate blinking colon.
    Alt,
}

/// All the configuration options that can be edited at runtime.
#[derive(Clone, Copy, Debug, PartialEq, Eq, Structural)]
pub struct ConfigOptions {
    /// Whether the clock should beep on the hour.
    pub hourly_ring: bool,
    /// The users colon blinking preference.
    pub time_colon_pref: TimeColonPreference,
    /// The users temperature reporting preference.
    pub temp_pref: TemperaturePreference,
    /// Whether the clock should auto scroll and show the temperature.
    pub auto_scroll_temp: bool,
    /// The users time representation preference.
    pub time_pref: TimePreference,
    /// Whether the display should use auto brightness or not.
    pub autolight: bool,
}

/// The flag that a byte stands for: on for 1, off for anything else.
pub open spec fn flag_of(byte: u8) -> bool {
    byte == TRUE_BYTES
}

/// The byte of a flag.
pub open spec fn flag_byte(state: bool) -> u8 {
    if state {
        TRUE_BYTES
    } else {
        FALSE_BYTES
    }
}

/// The colon preference that a byte stands for; an unknown byte means blink.
pub open spec fn time_colon_of(byte: u8) -> TimeColonPreference {
    if byte == 0 {
        TimeColonPreference::Alt
    } else if byte == 2 {
        TimeColonPreference::Solid
    } else {
        TimeColonPreference::Blink
    }
}

/// The byte of a colon preference.
pub open spec fn time_colon_byte(state: TimeColonPreference) -> u8 {
    match state {
        TimeColonPreference::Alt => 0x00,
        TimeColonPreference::Blink => 0x01,
        TimeColonPreference::Solid => 0x02,
    }
}

/// The temperature preference that a byte stands for; an unknown byte means
/// Celcius.
pub open spec fn temp_pref_of(byte: u8) -> TemperaturePreference {
    if byte == 1 {
        TemperaturePreference::Fahrenheit
    } else {
        TemperaturePreference::Celcius
    }
}

/// The byte of a temperature preference.
pub open spec fn temp_pref_byte(state: TemperaturePreference) -> u8 {
    match state {
        TemperaturePreference::Celcius => 0x00,
        TemperaturePreference::Fahrenheit => 0x01,
    }
}

/// The time preference that a byte stands for; an unknown byte means 24hr.
pub open spec fn time_pref_of(byte: u8) -> TimePreference {
    if byte == 0 {
        TimePreference::Twelve
    } else {
        TimePreference::TwentyFour
    }
}

/// The byte of a time preference.
pub open spec fn time_pref_byte(state: TimePreference) -> u8 {
    match state {
        TimePreference::Twelve => 0x00,
        TimePreference::TwentyFour => 0x01,
    }
}

/// The settings that a sector holds.
pub open spec fn options_of(bytes: Seq<u8>) -> ConfigOptions {
    ConfigOptions {
        hourly_ring: flag_of(bytes[HOURLY_RING as int]),
        time_colon_pref: time_colon_of(bytes[TIME_COLON_PREF as int]),
        temp_pref: temp_pref_of(bytes[TEMP_PREF as int]),
        auto_scroll_temp: flag_of(bytes[AUTO_SCROLL_TEMP as int]),
        time_pref: time_pref_of(bytes[TIME_PREF as int]),
        autolight: flag_of(bytes[AUTOLIGHT as int]),
    }
}

/// The sector that holds the settings: zero but for the six setting bytes.
pub open spec fn sector_of(state: ConfigOptions) -> Seq<u8> {
    Seq::new(
        ERASE_SIZE as nat,
        |i: int|
            if i == HOURLY_RING {
                flag_byte(state.hourly_ring)
            } else if i == TIME_COLON_PREF {
                time_colon_byte(state.time_colon_pref)
            } else if i == TEMP_PREF {
                temp_pref_byte(state.temp_pref)
            } else if i == AUTO_SCROLL_TEMP {
                flag_byte(state.auto_scroll_temp)
            } else if i == TIME_PREF {
                time_pref_byte(state.time_pref)
            } else if i == AUTOLIGHT {
                flag_byte(state.autolight)
            } else {
                0u8
            },
    )
}

/// Get the hourly ring config from the full flash byte array.
pub fn hourly_ring_from_bytes(bytes: &[u8; 4096]) -> (state: bool)
    ensures
        state == flag_of(bytes[HOURLY_RING as int]),
{
    bytes[HOURLY_RING] == TRUE_BYTES
}

/// Convert the hourly ring state to bytes.
pub fn hourly_ring_to_bytes(state: bool) -> (byte: u8)
    ensures
        byte == flag_byte(state),
{
    if state {
        TRUE_BYTES
    } else {
        FALSE_BYTES
    }
}

/// Get the time colon preference config from the full flash byte array.
pub fn time_colon_from_bytes(bytes: &[u8; 4096]) -> (state: TimeColonPreference)
    ensures
        state == time_colon_of(bytes[TIME_COLON_PREF as int]),
{
    let byte = bytes[TIME_COLON_PREF];
    if byte == 0x00 {
        TimeColonPreference::Alt
    } else if byte == 0x01 {
        TimeColonPreference::Blink
    } else if byte == 0x02 {
        TimeColonPreference::Solid
    } else {
        TimeColonPreference::Blink
    }
}

/// Convert the time colon preference state to bytes.
pub fn time_colon_to_bytes(state: TimeColonPreference) -> (byte: u8)
    ensures
        byte == time_colon_byte(state),
{
    match state {
        TimeColonPreference::Alt => 0x00,
        TimeColonPreference::Blink => 0x01,
        TimeColonPreference::Solid => 0x02,
    }
}

/// Get the temperature preference config from the full flash byte array.
pub fn temp_pref_from_bytes(bytes: &[u8; 4096]) -> (state: TemperaturePreference)
    ensures
        state == temp_pref_of(bytes[TEMP_PREF as int]),
{
    let byte = bytes[TEMP_PREF];
    if byte == 0x01 {
        TemperaturePreference::Fahrenheit
    } else {
        TemperaturePreference::Celcius
    }
}

/// Convert the temperature preference state to bytes.
pub fn temp_pref_to_bytes(state: TemperaturePreference) -> (byte: u8)
    ensures
        byte == temp_pref_byte(state),
{
    match state {
        TemperaturePreference::Celcius => 0x00,
        TemperaturePreference::Fahrenheit => 0x01,
    }
}

/// Get the auto scroll feature config from the full flash byte array.
pub fn auto_scroll_temp_from_bytes(bytes: &[u8; 4096]) -> (state: bool)
    ensures
        state == flag_of(bytes[AUTO_SCROLL_TEMP as int]),
{
    bytes[AUTO_SCROLL_TEMP] == TRUE_BYTES
}

/// Convert the auto scroll feature state to bytes.
pub fn auto_scroll_temp_to_bytes(state: bool) -> (byte: u8)
    ensures
        byte == flag_byte(state),
{
    if state {
        TRUE_BYTES
    } else {
        FALSE_BYTES
    }
}

/// Get the time preference config from the full flash byte array.
pub fn time_pref_from_bytes(bytes: &[u8; 4096]) -> (state: TimePreference)
    ensures
        state == time_pref_of(bytes[TIME_PREF as int]),
{
    let byte = bytes[TIME_PREF];
    if byte == 0x00 {
        TimePreference::Twelve
    } else {
        TimePreference::TwentyFour
    }
}

/// Convert the time preference state to bytes.
pub fn time_pref_to_bytes(state: TimePreference) -> (byte: u8)
    ensures
        byte == time_pref_byte(state),
{
    match state {
        TimePreference::Twelve => 0x00,
        TimePreference::TwentyFour => 0x01,
    }
}

/// Get the autolight config from the full flash byte array.
pub fn autolight_from_bytes(bytes: &[u8; 4096]) -> (state: bool)
    ensures
        state == flag_of(bytes[AUTOLIGHT as int]),
{
    bytes[AUTOLIGHT] == TRUE_BYTES
}

/// Convert the autolight state to bytes.
pub fn autolight_to_bytes(state: bool) -> (byte: u8)
    ensures
        byte == flag_byte(state),
{
    if state {
        TRUE_BYTES
    } else {
        FALSE_BYTES
    }
}

impl ConfigOptions {
    /// Read the settings out of a flash sector.
    pub fn new(bytes: &[u8; 4096]) -> (options: ConfigOptions)
        ensures
            options == options_of(bytes@),
    {
        ConfigOptions {
            hourly_ring: hourly_ring_from_bytes(bytes),
            time_colon_pref: time_colon_from_bytes(bytes),
            temp_pref: temp_pref_from_bytes(bytes),
            auto_scroll_temp: auto_scroll_temp_from_bytes(bytes),
            time_pref: time_pref_from_bytes(bytes),
            autolight: autolight_from_bytes(bytes),
        }
    }

    /// The flash sector that holds the settings.
    pub fn write_all(&self) -> (sector: [u8; 4096])
        ensures
            sector@ == sector_of(*self),
    {
        let mut sector = [0u8; 4096];
        sector[HOURLY_RING] = hourly_ring_to_bytes(self.hourly_ring);
        sector[TIME_COLON_PREF] = time_colon_to_bytes(self.time_colon_pref);
        sector[TEMP_PREF] = temp_pref_to_bytes(self.temp_pref);
        sector[AUTO_SCROLL_TEMP] = auto_scroll_temp_to_bytes(self.auto_scroll_temp);
        sector[TIME_PREF] = time_pref_to_bytes(self.time_pref);
        sector[AUTOLIGHT] = autolight_to_bytes(self.autolight);
        assert(sector@ =~= sector_of(*self));
        sector
    }

    /// Get hourly ring state.
    pub fn get_hourly_ring(&self) -> (state: bool)
        ensures
            state == self.hourly_ring,
    {
        self.hourly_ring
    }

    /// Set the hourly ring state.
    pub fn set_hourly_ring(&mut self, new_state: bool)
        ensures
            *final(self) == (ConfigOptions { hourly_ring: new_state, ..*old(self) }),
    {
        self.hourly_ring = new_state;
    }

    /// Get the time colon preference.
    pub fn get_time_colon_preference(&self) -> (state: TimeColonPreference)
        ensures
            state == self.time_colon_pref,
    {
        self.time_colon_pref
    }

    /// Set the time colon preference.
    pub fn set_time_colon_preference(&mut self, new_state: TimeColonPreference)
        ensures
            *final(self) == (ConfigOptions { time_colon_pref: new_state, ..*old(self) }),
    {
        self.time_colon_pref = new_state;
    }

    /// Get the temperature preference.
    pub fn get_temperature_preference(&self) -> (state: TemperaturePreference)
        ensures
            state == self.temp_pref,
    {
        self.temp_pref
    }

    /// Set the temperature preference.
    pub fn set_temperature_preference(&mut self, new_state: TemperaturePreference)
        ensures
            *final(self) == (ConfigOptions { temp_pref: new_state, ..*old(self) }),
    {
        self.temp_pref = new_state;
    }

    /// Toggle the temperature preference.
    pub fn toggle_temperature_preference(&mut self)
        ensures
            *final(self) == (ConfigOptions {
                temp_pref: match old(self).temp_pref {
                    TemperaturePreference::Celcius => TemperaturePreference::Fahrenheit,
                    TemperaturePreference::Fahrenheit => TemperaturePreference::Celcius,
                },
                ..*old(self)
            }),
    {
        match self.temp_pref {
            TemperaturePreference::Celcius => self.set_temperature_preference(
                TemperaturePreference::Fahrenheit,
            ),
            TemperaturePreference::Fahrenheit => self.set_temperature_preference(
                TemperaturePreference::Celcius,
            ),
        }
    }

    /// Get the auto scroll preference.
    pub fn get_auto_scroll_temp(&self) -> (state: bool)
        ensures
            state == self.auto_scroll_temp,
    {
        self.auto_scroll_temp
    }

    /// Set the auto scroll preference.
    pub fn set_auto_scroll_temp(&mut self, new_state: bool)
        ensures
            *final(self) == (ConfigOptions { auto_scroll_temp: new_state, ..*old(self) }),
    {
        self.auto_scroll_temp = new_state;
    }

    /// Get the time preference.
    pub fn get_time_preference(&self) -> (state: TimePreference)
        ensures
            state == self.time_pref,
    {
        self.time_pref
    }

    /// Set the time preference.
    pub fn set_time_preference(&mut self, new_state: TimePreference)
        ensures
            *final(self) == (ConfigOptions { time_pref: new_state, ..*old(self) }),
    {
        self.time_pref = new_state;
    }

    /// Toggle the time preference.
    pub fn toggle_time_preference(&mut self)
        ensures
            *final(self) == (ConfigOptions {
                time_pref: match old(self).time_pref {
                    TimePreference::Twelve => TimePreference::TwentyFour,
                    TimePreference::TwentyFour => TimePreference::Twelve,
                },
                ..*old(self)
            }),
    {
        match self.time_pref {
            TimePreference::Twelve => self.set_time_preference(TimePreference::TwentyFour),
            TimePreference::TwentyFour => self.set_time_preference(TimePreference::Twelve),
        }
    }

    /// Get the autolight preference.
    pub fn get_autolight(&self) -> (state: bool)
        ensures
            state == self.autolight,
    {
        self.autolight
    }

    /// Set the autolight state.
    pub fn set_autolight(&mut self, new_state: bool)
        ensures
            *final(self) == (ConfigOptions { autolight: new_state, ..*old(self) }),
    {
        self.autolight = new_state;
    }

    /// Toggle the autolight preference. Returns the new state.
    pub fn toggle_autolight(&mut self) -> (state: bool)
        ensures
            state == !old(self).autolight,
            *final(self) == (ConfigOptions { autolight: state, ..*old(self) }),
    {
        let state = self.autolight;
        self.set_autolight(!state);
        !state
    }
}

/// Settings written to a sector are read back unchanged.
pub proof fn lemma_sector_round_trip(state: ConfigOptions)
    ensures
        options_of(sector_of(state)) == state,
        sector_of(state).len() == ERASE_SIZE,
{
}

} // verus!
