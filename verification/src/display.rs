//! The display engine: tables, framebuffer, layout and queue.

pub mod backlight;
pub mod display_matrix;
pub mod format;
pub mod icons;
pub mod layout;
pub mod matrix;
pub mod queue;
pub mod refresh;
pub mod rendering;
pub mod request;
pub mod text;
