//! A horizontal seek bar for immediate-mode interfaces.
//!
//! Each frame the host hands the widget its configuration, the space it was
//! given, the measured width of the time label and a snapshot of the pointer.
//! The widget answers with a plan of what to draw and, while the pointer is
//! pressed on it, the position the user is seeking to.
//!
//! Times are whole milliseconds. Lengths and coordinates are hundredths of a
//! point.

pub mod color;
pub mod geometry;
pub mod time_text;
pub mod timeline;

pub use color::{lighten_channel, seek_color, Rgba};
pub use geometry::{drag_time, fill_width, hover_time, preview_width, track_rect, Rect, LABEL_GAP};
pub use time_text::time_to_display;
pub use timeline::{
    Frame, FrameInput, Label, Preview, Timeline, Tooltip, DEFAULT_FONT_SIZE, DEFAULT_HEIGHT,
    DEFAULT_RADIUS_FACTOR, TOOLTIP_LIFT, TOOLTIP_PAD_X, TOOLTIP_PAD_Y, TOOLTIP_ROUNDING,
};
