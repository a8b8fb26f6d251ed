use vstd::prelude::*;

verus! {

/// Gap kept on each side between a time label and the track.
pub const LABEL_GAP: i64 = 500;

/// Bound on any coordinate of a well-formed rectangle.
pub const COORD_LIMIT: i64 = 0x2000_0000_0000_0000;

/// Bound on the coordinates of the space a widget is given.
pub const SCREEN_LIMIT: i64 = 0x100_0000_0000;

/// An axis-aligned rectangle; when it is well formed its edges are ordered
/// and its coordinates stay below `COORD_LIMIT` in size.
#[derive(Clone, Copy, Debug, PartialEq, Eq, Structural)]
pub struct Rect {
    pub left: i64,
    pub top: i64,
    pub right: i64,
    pub bottom: i64,
}

impl Rect {
    pub open spec fn wf(self) -> bool {
        &&& self.left <= self.right
        &&& self.top <= self.bottom
        &&& -COORD_LIMIT <= self.left && self.right <= COORD_LIMIT
        &&& -COORD_LIMIT <= self.top && self.bottom <= COORD_LIMIT
    }

    pub open spec fn width_spec(self) -> int {
        self.right - self.left
    }

    /// Horizontal extent of the rectangle.
    pub fn width(&self) -> (w: i64)
        requires
            self.wf(),
        ensures
            w == self.width_spec(),
    {
        self.right - self.left
    }
}

/// Left edge of the track: the widget's left edge pushed past the label
/// reservation and the gap.
pub open spec fn track_left(outer: Rect, label_width: int) -> int {
    outer.left + label_width + LABEL_GAP
}

/// Right edge of the track: the widget's right edge pulled in by the same
/// amount, but never left of the track's left edge.
pub open spec fn track_right(outer: Rect, label_width: int) -> int {
    let r = outer.right - label_width - LABEL_GAP;
    if r < track_left(outer, label_width) {
        track_left(outer, label_width)
    } else {
        r
    }
}

/// The track for a widget occupying `outer`, with `label_width` reserved for
/// the time label at each end.
pub open spec fn track_of(outer: Rect, label_width: int) -> Rect {
    Rect {
        left: track_left(outer, label_width) as i64,
        top: outer.top,
        right: track_right(outer, label_width) as i64,
        bottom: outer.bottom,
    }
}

/// All edges of the rectangle lie within `SCREEN_LIMIT` of the origin.
pub open spec fn on_screen(r: Rect) -> bool {
    &&& -SCREEN_LIMIT <= r.left && r.right <= SCREEN_LIMIT
    &&& -SCREEN_LIMIT <= r.top && r.bottom <= SCREEN_LIMIT
}

/// The inner track of the widget, inset at both ends by the label width and
/// the gap.
pub fn track_rect(outer: Rect, label_width: u32) -> (t: Rect)
    requires
        outer.wf(),
        on_screen(outer),
    ensures
        t == track_of(outer, label_width as int),
        t.wf(),
{
    let left: i64 = outer.left + label_width as i64 + LABEL_GAP;
    let mut right: i64 = outer.right - label_width as i64 - LABEL_GAP;
    if right < left {
        right = left;
    }
    Rect { left, top: outer.top, right, bottom: outer.bottom }
}

/// The position a pointer at `x` points to on a track spanning `left` to
/// `right`: nothing before the track, everything after it, and in between a
/// share proportional to the distance covered, rounded down.
pub open spec fn seek_at(total: int, left: int, right: int, x: int) -> int {
    if x <= left {
        0
    } else if x >= right {
        total
    } else {
        total * (x - left) / (right - left)
    }
}

/// `total * part / whole`, rounded down, for `part <= whole`.
fn scale(total: u64, part: i64, whole: i64) -> (r: u64)
    requires
        0 <= part <= whole,
        0 < whole,
    ensures
        r == total as int * part as int / whole as int,
        r <= total,
{
    proof {
        let (t, a, b) = (total as int, part as int, whole as int);
        assert(t * a < 0x1_0000_0000_0000_0000 * 0x8000_0000_0000_0000) by (nonlinear_arith)
            requires 0 <= t < 0x1_0000_0000_0000_0000, 0 <= a < 0x8000_0000_0000_0000;
        assert(t * a <= t * b) by (nonlinear_arith)
            requires 0 <= a <= b, t >= 0;
        assert(t * a / b <= t) by (nonlinear_arith)
            requires t * a <= t * b, b > 0, t * a >= 0;
    }
    let p: u128 = total as u128 * part as u128;
    (p / whole as u128) as u64
}

/// The time under the pointer while it hovers over the widget.
pub fn hover_time(total: u64, track: Rect, x: i64) -> (t: u64)
    requires
        track.wf(),
    ensures
        t == seek_at(total as int, track.left as int, track.right as int, x as int),
        t <= total,
{
    if x < track.left {
        0
    } else if x > track.right {
        total
    } else if x == track.left {
        0
    } else {
        proof {
            let (t, w) = (total as int, track.width_spec());
            assert(t * w / w == t) by (nonlinear_arith)
                requires w > 0;
        }
        scale(total, x - track.left, track.right - track.left)
    }
}

/// The position written out while the pointer is pressed at `x`. A pointer
/// past the widget's outer right edge seeks to the end; anywhere else the
/// preview's share of the track decides.
pub fn drag_time(total: u64, outer: Rect, track: Rect, x: i64) -> (t: u64)
    requires
        track.wf(),
        track.right <= outer.right || track.right == track.left,
    ensures
        t == seek_at(total as int, track.left as int, track.right as int, x as int),
        t <= total,
{
    if x <= track.left {
        0
    } else if x > outer.right {
        total
    } else {
        let covered = preview_width(track, x);
        if track.right == track.left {
            total
        } else {
            proof {
                let (t, w) = (total as int, track.width_spec());
                assert(t * w / w == t) by (nonlinear_arith)
                    requires w > 0;
            }
            scale(total, covered, track.right - track.left)
        }
    }
}

/// The width of the seek preview: from the track's left edge to the pointer,
/// never less than nothing and never more than the track.
pub open spec fn preview_width_of(track: Rect, x: int) -> int {
    if x <= track.left {
        0
    } else if x >= track.right {
        track.right - track.left
    } else {
        x - track.left
    }
}

/// Width of the seek preview for a pointer at `x`.
pub fn preview_width(track: Rect, x: i64) -> (w: i64)
    requires
        track.wf(),
    ensures
        w == preview_width_of(track, x as int),
        0 <= w <= track.width_spec(),
{
    if x <= track.left {
        0
    } else if x >= track.right {
        track.right - track.left
    } else {
        x - track.left
    }
}

/// The share of a track of `width` that shows `progress` out of `total`,
/// rounded down; nothing when `total` is zero and the whole track once
/// `progress` reaches `total`.
pub open spec fn fill_width_of(width: int, progress: int, total: int) -> int {
    if total == 0 {
        0
    } else if progress >= total {
        width
    } else {
        width * progress / total
    }
}

/// Width of the filled part of a track of `width`.
pub fn fill_width(width: i64, progress: u64, total: u64) -> (w: i64)
    requires
        width >= 0,
    ensures
        w == fill_width_of(width as int, progress as int, total as int),
        0 <= w <= width,
{
    if total == 0 {
        0
    } else if progress >= total {
        width
    } else {
        proof {
            let (w, a, b) = (width as int, progress as int, total as int);
            assert(w * a < 0x8000_0000_0000_0000 * 0x1_0000_0000_0000_0000) by (nonlinear_arith)
                requires 0 <= w < 0x8000_0000_0000_0000, 0 <= a < 0x1_0000_0000_0000_0000;
            assert(w * a <= w * b) by (nonlinear_arith)
                requires 0 <= a <= b, w >= 0;
            assert(w * a / b <= w) by (nonlinear_arith)
                requires w * a <= w * b, b > 0, w * a >= 0;
        }
        let p: u128 = width as u128 * progress as u128;
        (p / total as u128) as i64
    }
}

/// Seeking is clamped and proportional: a pointer before the track gives
/// nothing, one past it gives `total`, one on it gives the share of `total`
/// that it has covered, and every result lies between zero and `total`.
pub proof fn lemma_seek_clamped(total: int, left: int, right: int, x: int)
    requires
        total >= 0,
        left <= right,
    ensures
        x < left ==> seek_at(total, left, right, x) == 0,
        x > right ==> seek_at(total, left, right, x) == total,
        left <= x <= right && left < right ==> seek_at(total, left, right, x) == total * (x
            - left) / (right - left),
        0 <= seek_at(total, left, right, x) <= total,
{
    if left < x < right {
        let (a, w) = (x - left, right - left);
        assert(0 <= total * a <= total * w) by (nonlinear_arith)
            requires 0 <= a <= w, total >= 0;
        assert(total * a / w <= total) by (nonlinear_arith)
            requires total * a <= total * w, w > 0, total * a >= 0;
        assert(0 <= total * a / w) by (nonlinear_arith)
            requires total * a >= 0, w > 0;
    }
    if x == left && left < right {
        let w = right - left;
        assert(total * 0 / w == 0) by (nonlinear_arith)
            requires w > 0;
    }
    if x == right && left < right {
        let w = right - left;
        assert(total * w / w == total) by (nonlinear_arith)
            requires w > 0;
    }
}

/// Seeking is monotonic: a pointer further right never seeks to an earlier
/// position.
pub proof fn lemma_seek_monotonic(total: int, left: int, right: int, x1: int, x2: int)
    requires
        total >= 0,
        left <= right,
        x1 <= x2,
    ensures
        seek_at(total, left, right, x1) <= seek_at(total, left, right, x2),
{
    lemma_seek_clamped(total, left, right, x1);
    lemma_seek_clamped(total, left, right, x2);
    if left < x1 && x2 < right {
        let (a, b, w) = (x1 - left, x2 - left, right - left);
        assert(total * a <= total * b) by (nonlinear_arith)
            requires 0 <= a <= b, total >= 0;
        vstd::arithmetic::div_mod::lemma_div_is_ordered(total * a, total * b, w);
    }
}

/// A press past the widget's right edge seeks to the end, whenever the
/// track lies within the widget.
pub proof fn lemma_press_past_widget(total: int, outer: Rect, track: Rect, x: int)
    requires
        total >= 0,
        track.wf(),
        track.right <= outer.right,
        x > outer.right,
    ensures
        seek_at(total, track.left as int, track.right as int, x) == total,
{
}

/// A drag across the track, from its left edge to its right edge, sampled
/// at pointer positions that never move left, seeks to positions that never
/// go back, starting at zero and ending at `total`.
pub proof fn lemma_drag_sweep(total: int, left: int, right: int, xs: Seq<int>)
    requires
        total >= 0,
        left < right,
        xs.len() >= 1,
        xs[0] == left,
        xs.last() == right,
        forall|i: int, j: int| 0 <= i <= j < xs.len() ==> xs[i] <= xs[j],
    ensures
        ({
            let ts = xs.map_values(|x: int| seek_at(total, left, right, x));
            &&& ts[0] == 0
            &&& ts.last() == total
            &&& forall|i: int, j: int| 0 <= i <= j < ts.len() ==> ts[i] <= ts[j]
        }),
{
    let ts = xs.map_values(|x: int| seek_at(total, left, right, x));
    lemma_seek_clamped(total, left, right, right);
    assert forall|i: int, j: int| 0 <= i <= j < ts.len() implies ts[i] <= ts[j] by {
        lemma_seek_monotonic(total, left, right, xs[i], xs[j]);
    }
}

/// With a zero `total` nothing is filled and every seek lands on zero.
pub proof fn lemma_zero_total(width: int, progress: int, left: int, right: int, x: int)
    requires
        left <= right,
    ensures
        fill_width_of(width, progress, 0) == 0,
        seek_at(0, left, right, x) == 0,
{
    lemma_seek_clamped(0, left, right, x);
}

/// The fill shows the progress: for `0 <= progress <= total`, the filled
/// share of the track falls short of `progress / total` by less than one
/// unit of width, and never exceeds it.
pub proof fn lemma_fill_round_trip(width: int, progress: int, total: int)
    requires
        width >= 0,
        0 <= progress <= total,
        total > 0,
    ensures
        fill_width_of(width, progress, total) * total <= width * progress,
        width * progress < (fill_width_of(width, progress, total) + 1) * total,
{
    if progress < total {
        let f = width * progress / total;
        vstd::arithmetic::div_mod::lemma_fundamental_div_mod(width * progress, total);
        assert(f * total == total * f) by (nonlinear_arith);
        assert((f + 1) * total == total * f + total) by (nonlinear_arith);
    } else {
        assert(width * progress == width * total);
        assert(width * total < (width + 1) * total) by (nonlinear_arith)
            requires total > 0;
    }
}

} // verus!
