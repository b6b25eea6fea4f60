//! Logic of a dot-matrix desk clock: the glyph and icon tables, the pixel
//! matrix, the render queue with its scrolling layout, the row refresh and
//! backlight rules, and the button gesture classifier.

pub mod alarm;
pub mod app;
pub mod buttons;
pub mod clock;
pub mod config;
pub mod display;
pub mod pomodoro;
pub mod rtc;
pub mod scheduler;
pub mod settings;
pub mod speaker;
pub mod stopwatch;
