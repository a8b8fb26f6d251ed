use vstd::prelude::*;

use crate::color::{seek_color, seek_color_of, Rgba};
use crate::geometry::{
    drag_time, fill_width, fill_width_of, hover_time, preview_width, preview_width_of, seek_at,
    track_of, track_rect, Rect, SCREEN_LIMIT,
};
use crate::time_text::{time_text, time_to_display};

verus! {

/// Default height of the widget.
pub const DEFAULT_HEIGHT: u32 = 800;

/// Default corner radius, in percent of the height.
pub const DEFAULT_RADIUS_FACTOR: u32 = 30;

/// Default size of the time labels.
pub const DEFAULT_FONT_SIZE: u32 = 1200;

/// Space the tooltip leaves between its text and its sides, both sides
/// together.
pub const TOOLTIP_PAD_X: u32 = 800;

/// Space the tooltip adds to the font size in height.
pub const TOOLTIP_PAD_Y: u32 = 600;

/// Space between the tooltip and the track, beyond the font size.
pub const TOOLTIP_LIFT: i64 = 1000;

/// Corner radius of the tooltip.
pub const TOOLTIP_ROUNDING: u32 = 500;

/// The seek bar's configuration for one frame.
///
/// `progress` and `total` are in milliseconds; `total` is meant to be
/// positive, and a zero `total` draws no fill. `radius_factor` is the corner
/// radius in percent of `height`.
#[derive(Clone, Copy, Debug, PartialEq, Eq, Structural)]
pub struct Timeline {
    pub progress: u64,
    pub total: u64,
    pub accent_color: Rgba,
    pub height: u32,
    pub radius_factor: u32,
    pub font_size: u32,
}

/// What the host knows at the start of a frame.
#[derive(Clone, Copy, Debug, PartialEq, Eq, Structural)]
pub struct FrameInput {
    /// Left edge of the space given to the widget.
    pub left: i32,
    /// Top edge of the space given to the widget.
    pub top: i32,
    /// Width available to the widget.
    pub width: u32,
    /// Measured width of the label for time zero, reserved at both ends.
    pub label_width: u32,
    /// Whether any of the widget's space can be seen.
    pub visible: bool,
    /// The pointer's x while it hovers over the widget.
    pub hover_x: Option<i32>,
    /// The pointer's x while it is pressed on the widget or dragging it.
    pub press_x: Option<i32>,
}

/// The time shown under the pointer, in a box centred on `x` whose bottom
/// edge is `bottom`.
#[derive(Debug)]
pub struct Tooltip {
    pub x: i64,
    pub bottom: i64,
    pub font_size: u32,
    pub text: String,
}

/// A line of text; `x` is its left edge or its right edge, as the frame
/// says, and `y` its top.
#[derive(Debug)]
pub struct Label {
    pub x: i64,
    pub y: i64,
    pub text: String,
}

/// The seek preview: a rectangle and its colour.
#[derive(Clone, Copy, Debug, PartialEq, Eq, Structural)]
pub struct Preview {
    pub rect: Rect,
    pub color: Rgba,
}

/// What the widget draws in one frame, in drawing order, and the position
/// it seeks to.
#[derive(Debug)]
pub struct Frame {
    /// The space taken by the widget.
    pub outer: Rect,
    /// The track between the two labels.
    pub track: Rect,
    /// Corner radius of the track, the fill and the preview.
    pub radius: u64,
    /// Whether the track, the tooltip, the fill and the preview are drawn.
    pub visible: bool,
    /// The tooltip, drawn above every other widget.
    pub tooltip: Option<Tooltip>,
    /// The filled share of the track in the accent colour; absent when empty.
    pub fill: Option<Rect>,
    /// The seek preview; absent when empty.
    pub preview: Option<Preview>,
    /// The position sought this frame.
    pub seek: Option<u64>,
    /// The elapsed time, left-aligned at the widget's left edge.
    pub elapsed_label: Label,
    /// The total time, right-aligned at the widget's right edge.
    pub total_label: Label,
}

impl FrameInput {
    /// The space taken by a widget of `height`.
    pub open spec fn outer_spec(self, height: u32) -> Rect {
        Rect {
            left: self.left as i64,
            top: self.top as i64,
            right: (self.left + self.width) as i64,
            bottom: (self.top + height) as i64,
        }
    }
}

impl Tooltip {
    /// The tooltip's position is within reach of the screen.
    pub open spec fn wf(self) -> bool {
        &&& -SCREEN_LIMIT <= self.x <= SCREEN_LIMIT
        &&& -SCREEN_LIMIT <= self.bottom <= SCREEN_LIMIT
    }

    /// The box around the tooltip's text, for text of `text_width`: the text
    /// and its padding, centred on `x`, standing on `bottom`.
    pub fn bounds(&self, text_width: u32) -> (r: Rect)
        requires
            self.wf(),
        ensures
            r.wf(),
            r.right - r.left == text_width + TOOLTIP_PAD_X,
            r.left == self.x - (text_width + TOOLTIP_PAD_X) / 2,
            r.bottom == self.bottom,
            r.bottom - r.top == self.font_size + TOOLTIP_PAD_Y,
    {
        let w: i64 = text_width as i64 + TOOLTIP_PAD_X as i64;
        let h: i64 = self.font_size as i64 + TOOLTIP_PAD_Y as i64;
        let left: i64 = self.x - w / 2;
        Rect { left, top: self.bottom - h, right: left + w, bottom: self.bottom }
    }
}

impl Timeline {
    /// A seek bar at `progress` out of `total` milliseconds, with the
    /// default look.
    pub fn new(progress: u64, total: u64) -> (t: Timeline)
        ensures
            t.progress == progress,
            t.total == total,
            t.accent_color == (Rgba { r: 0, g: 155, b: 255, a: 255 }),
            t.height == DEFAULT_HEIGHT,
            t.radius_factor == DEFAULT_RADIUS_FACTOR,
            t.font_size == DEFAULT_FONT_SIZE,
    {
        Timeline {
            progress,
            total,
            accent_color: Rgba::rgb(0, 155, 255),
            height: DEFAULT_HEIGHT,
            radius_factor: DEFAULT_RADIUS_FACTOR,
            font_size: DEFAULT_FONT_SIZE,
        }
    }

    /// The same bar in another accent colour.
    pub fn accent_color(self, color: Rgba) -> (t: Timeline)
        ensures
            t == (Timeline { accent_color: color, ..self }),
    {
        Timeline { accent_color: color, ..self }
    }

    /// The same bar at another height.
    pub fn height(self, height: u32) -> (t: Timeline)
        ensures
            t == (Timeline { height, ..self }),
    {
        Timeline { height, ..self }
    }

    /// The same bar with another corner radius, in percent of its height.
    pub fn radius_factor(self, factor: u32) -> (t: Timeline)
        ensures
            t == (Timeline { radius_factor: factor, ..self }),
    {
        Timeline { radius_factor: factor, ..self }
    }

    /// The same bar with labels of another size.
    pub fn font_size(self, font_size: u32) -> (t: Timeline)
        ensures
            t == (Timeline { font_size, ..self }),
    {
        Timeline { font_size, ..self }
    }

    /// Top of both time labels: centred on the bar's height.
    pub open spec fn label_top(self, input: FrameInput) -> int {
        input.top + self.height / 2 - self.font_size / 2
    }

    /// Lays out and reads one frame of the seek bar.
    pub fn ui(&self, input: &FrameInput) -> (f: Frame)
        ensures
            f.outer == input.outer_spec(self.height),
            f.track == track_of(f.outer, input.label_width as int),
            f.track.wf(),
            f.radius == self.radius_factor as int * self.height as int / 100,
            f.visible == input.visible,
            input.press_x is None ==> f.seek is None,
            match f.tooltip {
                Some(tip) => {
                    &&& input.visible
                    &&& input.hover_x is Some
                    &&& tip.wf()
                    &&& tip.x == input.hover_x->0
                    &&& tip.bottom == f.track.top - self.font_size - TOOLTIP_LIFT
                    &&& tip.font_size == self.font_size
                    &&& tip.text@ == time_text(
                        seek_at(
                            self.total as int,
                            f.track.left as int,
                            f.track.right as int,
                            input.hover_x->0 as int,
                        ) as nat,
                    )
                },
                None => !input.visible || input.hover_x is None,
            },
            match f.fill {
                Some(r) => {
                    &&& input.visible
                    &&& r.wf()
                    &&& r.left == f.track.left && r.top == f.track.top
                    &&& r.bottom == f.track.bottom
                    &&& r.right - r.left == fill_width_of(
                        f.track.width_spec(),
                        self.progress as int,
                        self.total as int,
                    )
                    &&& r.right > r.left
                },
                None => !input.visible || fill_width_of(
                    f.track.width_spec(),
                    self.progress as int,
                    self.total as int,
                ) == 0,
            },
            match f.preview {
                Some(p) => {
                    &&& input.visible
                    &&& input.press_x is Some
                    &&& p.rect.wf()
                    &&& p.rect.left == f.track.left && p.rect.top == f.track.top
                    &&& p.rect.bottom == f.track.bottom
                    &&& p.rect.right - p.rect.left == preview_width_of(
                        f.track,
                        input.press_x->0 as int,
                    )
                    &&& p.rect.right > p.rect.left
                    &&& p.color == seek_color_of(self.accent_color)
                },
                None => !input.visible || input.press_x is None || preview_width_of(
                    f.track,
                    input.press_x->0 as int,
                ) == 0,
            },
            match f.seek {
                Some(t) => {
                    &&& input.visible
                    &&& input.press_x is Some
                    &&& t == seek_at(
                        self.total as int,
                        f.track.left as int,
                        f.track.right as int,
                        input.press_x->0 as int,
                    )
                    &&& t <= self.total
                },
                None => !input.visible || input.press_x is None,
            },
            f.elapsed_label.x == input.left,
            f.elapsed_label.y == self.label_top(*input),
            f.elapsed_label.text@ == time_text(self.progress as nat),
            f.total_label.x == f.outer.right,
            f.total_label.y == self.label_top(*input),
            f.total_label.text@ == time_text(self.total as nat),
    {
        let outer = Rect {
            left: input.left as i64,
            top: input.top as i64,
            right: input.left as i64 + input.width as i64,
            bottom: input.top as i64 + self.height as i64,
        };
        let track = track_rect(outer, input.label_width);
        proof {
            let (a, b) = (self.radius_factor as int, self.height as int);
            assert(a * b <= 0xffff_ffff * 0xffff_ffff) by (nonlinear_arith)
                requires 0 <= a <= 0xffff_ffff, 0 <= b <= 0xffff_ffff;
        }
        let radius: u64 = self.radius_factor as u64 * self.height as u64 / 100;
        let mut tooltip: Option<Tooltip> = None;
        let mut fill: Option<Rect> = None;
        let mut preview: Option<Preview> = None;
        let mut seek: Option<u64> = None;
        if input.visible {
            if let Some(x) = input.hover_x {
                let t = hover_time(self.total, track, x as i64);
                tooltip = Some(
                    Tooltip {
                        x: x as i64,
                        bottom: track.top - self.font_size as i64 - TOOLTIP_LIFT,
                        font_size: self.font_size,
                        text: time_to_display(t),
                    },
                );
            }
            let fw = fill_width(track.width(), self.progress, self.total);
            if fw > 0 {
                fill = Some(Rect { right: track.left + fw, ..track });
            }
            if let Some(x) = input.press_x {
                let pw = preview_width(track, x as i64);
                if pw > 0 {
                    preview = Some(
                        Preview {
                            rect: Rect { right: track.left + pw, ..track },
                            color: seek_color(self.accent_color),
                        },
                    );
                }
                seek = Some(drag_time(self.total, outer, track, x as i64));
            }
        }
        let label_top: i64 = input.top as i64 + (self.height / 2) as i64 - (self.font_size / 2) as i64;
        Frame {
            outer,
            track,
            radius,
            visible: input.visible,
            tooltip,
            fill,
            preview,
            seek,
            elapsed_label: Label { x: outer.left, y: label_top, text: time_to_display(self.progress) },
            total_label: Label { x: outer.right, y: label_top, text: time_to_display(self.total) },
        }
    }
}

impl Frame {
    /// Writes the position sought this frame into `slot`, and tells whether
    /// it did; a frame that seeks nowhere leaves `slot` alone.
    pub fn write_seek(&self, slot: &mut u64) -> (changed: bool)
        ensures
            changed == self.seek is Some,
            match self.seek {
                Some(t) => *final(slot) == t,
                None => *final(slot) == *old(slot),
            },
    {
        match self.seek {
            Some(t) => {
                *slot = t;
                true
            },
            None => false,
        }
    }
}

} // verus!
