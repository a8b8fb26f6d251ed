use egui_timeline::{
    drag_time, fill_width, hover_time, lighten_channel, preview_width, seek_color,
    time_to_display, track_rect, FrameInput, Rect, Rgba, Timeline, DEFAULT_FONT_SIZE,
    DEFAULT_HEIGHT, DEFAULT_RADIUS_FACTOR,
};

fn input(width: u32, hover_x: Option<i32>, press_x: Option<i32>) -> FrameInput {
    FrameInput { left: 0, top: 0, width, label_width: 4000, visible: true, hover_x, press_x }
}

#[test]
fn formats_minutes_and_fraction() {
    assert_eq!(time_to_display(125_300), "0:02:05.3");
}

#[test]
fn formats_hours() {
    assert_eq!(time_to_display(3_725_000), "1:02:05.0");
}

#[test]
fn formats_zero() {
    assert_eq!(time_to_display(0), "0:00:00.0");
}

#[test]
fn formats_many_hours_unpadded() {
    assert_eq!(time_to_display(36_000_000), "10:00:00.0");
    assert_eq!(time_to_display(360_000_000), "100:00:00.0");
}

#[test]
fn rounds_tenths_half_up() {
    assert_eq!(time_to_display(1_049), "0:00:01.0");
    assert_eq!(time_to_display(1_050), "0:00:01.1");
}

#[test]
fn rounding_can_reach_sixty_seconds() {
    assert_eq!(time_to_display(59_960), "0:00:60.0");
}

#[test]
fn time_text_has_fixed_shape() {
    for ms in [0u64, 999, 61_234, 599_999, 3_599_999, 86_400_000, u64::MAX] {
        let s = time_to_display(ms);
        let b = s.as_bytes();
        let n = b.len() - 8;
        assert!(n >= 1);
        assert_eq!(b[n], b':');
        assert_eq!(b[n + 3], b':');
        assert_eq!(b[n + 6], b'.');
        for (i, c) in b.iter().enumerate() {
            if i != n && i != n + 3 && i != n + 6 {
                assert!(c.is_ascii_digit(), "{s}");
            }
        }
        assert!(s[n + 1..n + 3].parse::<u32>().unwrap() < 60);
    }
}

#[test]
fn new_has_default_look() {
    let t = Timeline::new(10_000, 100_000);
    assert_eq!(t.progress, 10_000);
    assert_eq!(t.total, 100_000);
    assert_eq!(t.accent_color, Rgba { r: 0, g: 155, b: 255, a: 255 });
    assert_eq!(t.height, DEFAULT_HEIGHT);
    assert_eq!(t.height, 800);
    assert_eq!(t.radius_factor, DEFAULT_RADIUS_FACTOR);
    assert_eq!(t.radius_factor, 30);
    assert_eq!(t.font_size, DEFAULT_FONT_SIZE);
    assert_eq!(t.font_size, 1200);
}

#[test]
fn builders_change_one_setting_each() {
    let t = Timeline::new(250_000, 1_000_000)
        .accent_color(Rgba::rgb(15, 50, 140))
        .font_size(1400)
        .radius_factor(50)
        .height(1000);
    assert_eq!(t.accent_color, Rgba { r: 15, g: 50, b: 140, a: 255 });
    assert_eq!(t.font_size, 1400);
    assert_eq!(t.radius_factor, 50);
    assert_eq!(t.height, 1000);
    assert_eq!(t.progress, 250_000);
    assert_eq!(t.total, 1_000_000);
}

#[test]
fn lays_out_track_between_labels() {
    let f = Timeline::new(10_000, 100_000).ui(&input(100_000, None, None));
    assert_eq!(f.outer, Rect { left: 0, top: 0, right: 100_000, bottom: 800 });
    assert_eq!(f.track, Rect { left: 4_500, top: 0, right: 95_500, bottom: 800 });
    assert_eq!(f.radius, 240);
    assert!(f.visible);
}

#[test]
fn fill_follows_progress() {
    let f = Timeline::new(10_000, 100_000).ui(&input(100_000, None, None));
    assert_eq!(f.fill, Some(Rect { left: 4_500, top: 0, right: 4_500 + 9_100, bottom: 800 }));
}

#[test]
fn fill_ratio_matches_progress() {
    for p in [0u64, 1, 333, 50_000, 99_999, 100_000] {
        let f = Timeline::new(p, 100_000).ui(&input(100_000, None, None));
        let w = f.fill.map(|r| r.right - r.left).unwrap_or(0);
        let ratio = w as f64 / 91_000.0;
        assert!((ratio - p as f64 / 100_000.0).abs() < 1.0 / 91_000.0);
    }
}

#[test]
fn labels_show_elapsed_and_total() {
    let f = Timeline::new(10_000, 100_000).ui(&input(100_000, None, None));
    assert_eq!(f.elapsed_label.text, "0:00:10.0");
    assert_eq!((f.elapsed_label.x, f.elapsed_label.y), (0, -200));
    assert_eq!(f.total_label.text, "0:01:40.0");
    assert_eq!((f.total_label.x, f.total_label.y), (100_000, -200));
}

#[test]
fn hover_shows_tooltip_without_seeking() {
    let f = Timeline::new(10_000, 100_000).ui(&input(100_000, Some(50_000), None));
    let tip = f.tooltip.as_ref().unwrap();
    assert_eq!(tip.text, "0:00:50.0");
    assert_eq!(tip.x, 50_000);
    assert_eq!(tip.bottom, -2_200);
    assert_eq!(f.seek, None);
    assert_eq!(f.preview, None);
    let mut slot: u64 = 7;
    assert!(!f.write_seek(&mut slot));
    assert_eq!(slot, 7);
}

#[test]
fn hover_never_seeks_anywhere() {
    let t = Timeline::new(10_000, 100_000);
    for x in [-1_000_000, 0, 4_499, 4_500, 50_000, 95_500, 99_999, 1_000_000] {
        let f = t.ui(&input(100_000, Some(x), None));
        assert_eq!(f.seek, None);
        let mut slot: u64 = 3;
        assert!(!f.write_seek(&mut slot));
        assert_eq!(slot, 3);
    }
}

#[test]
fn hover_before_and_after_track() {
    let t = Timeline::new(10_000, 100_000);
    let before = t.ui(&input(100_000, Some(100), None));
    assert_eq!(before.tooltip.unwrap().text, "0:00:00.0");
    let after = t.ui(&input(100_000, Some(99_000), None));
    assert_eq!(after.tooltip.unwrap().text, "0:01:40.0");
}

#[test]
fn tooltip_box_is_centred_above_track() {
    let f = Timeline::new(10_000, 100_000).ui(&input(100_000, Some(50_000), None));
    let b = f.tooltip.unwrap().bounds(3_000);
    assert_eq!(b, Rect { left: 50_000 - 1_900, top: -2_200 - 1_800, right: 50_000 + 1_900, bottom: -2_200 });
}

#[test]
fn press_seeks_and_previews() {
    let t = Timeline::new(10_000, 100_000);
    let f = t.ui(&input(100_000, Some(50_000), Some(50_000)));
    assert_eq!(f.seek, Some(50_000));
    let p = f.preview.unwrap();
    assert_eq!(p.rect, Rect { left: 4_500, top: 0, right: 50_000, bottom: 800 });
    assert_eq!(p.color, seek_color(t.accent_color));
    let mut slot: u64 = 0;
    assert!(f.write_seek(&mut slot));
    assert_eq!(slot, 50_000);
}

#[test]
fn press_is_clamped() {
    let t = Timeline::new(10_000, 100_000);
    assert_eq!(t.ui(&input(100_000, None, Some(-10))).seek, Some(0));
    assert_eq!(t.ui(&input(100_000, None, Some(4_499))).seek, Some(0));
    assert_eq!(t.ui(&input(100_000, None, Some(95_500))).seek, Some(100_000));
    assert_eq!(t.ui(&input(100_000, None, Some(98_000))).seek, Some(100_000));
    assert_eq!(t.ui(&input(100_000, None, Some(200_000))).seek, Some(100_000));
    let past = t.ui(&input(100_000, None, Some(200_000)));
    assert_eq!(past.preview.unwrap().rect.right, 95_500);
    assert_eq!(t.ui(&input(100_000, None, Some(4_499))).preview, None);
}

#[test]
fn press_is_linear_on_track() {
    let t = Timeline::new(0, 91_000);
    for x in [4_500, 5_500, 20_000, 95_000] {
        let f = t.ui(&input(100_000, None, Some(x)));
        assert_eq!(f.seek, Some((x - 4_500) as u64));
    }
}

#[test]
fn drag_across_track_never_goes_back() {
    let t = Timeline::new(10_000, 100_000);
    let mut last: u64 = 0;
    let mut seen = Vec::new();
    let mut x = 4_500;
    while x <= 95_500 {
        let s = t.ui(&input(100_000, Some(x), Some(x))).seek.unwrap();
        assert!(s >= last);
        last = s;
        seen.push(s);
        x += 700;
    }
    assert_eq!(seen[0], 0);
    assert_eq!(*seen.last().unwrap(), 100_000);
}

#[test]
fn zero_total_draws_no_fill_and_seeks_zero() {
    let t = Timeline::new(0, 0);
    let f = t.ui(&input(100_000, Some(50_000), Some(50_000)));
    assert_eq!(f.fill, None);
    assert_eq!(f.seek, Some(0));
    assert_eq!(f.tooltip.unwrap().text, "0:00:00.0");
    assert_eq!(fill_width(91_000, 5_000, 0), 0);
}

#[test]
fn narrow_widget_degenerates_to_empty_track() {
    let t = Timeline::new(50_000, 100_000);
    let f = t.ui(&input(1_000, None, Some(4_500)));
    assert_eq!(f.track, Rect { left: 4_500, top: 0, right: 4_500, bottom: 800 });
    assert_eq!(f.fill, None);
    assert_eq!(f.preview, None);
    assert_eq!(f.seek, Some(0));
    assert_eq!(t.ui(&input(1_000, None, Some(4_600))).seek, Some(100_000));
}

#[test]
fn invisible_widget_only_labels() {
    let mut i = input(100_000, Some(50_000), Some(50_000));
    i.visible = false;
    let f = Timeline::new(10_000, 100_000).ui(&i);
    assert!(!f.visible);
    assert!(f.tooltip.is_none());
    assert_eq!(f.fill, None);
    assert_eq!(f.preview, None);
    assert_eq!(f.seek, None);
    assert_eq!(f.elapsed_label.text, "0:00:10.0");
}

#[test]
fn progress_past_total_fills_whole_track() {
    let f = Timeline::new(150_000, 100_000).ui(&input(100_000, None, None));
    assert_eq!(f.fill.unwrap().right, 95_500);
}

#[test]
fn track_rect_insets_both_ends() {
    let outer = Rect { left: -100, top: 20, right: 20_000, bottom: 820 };
    assert_eq!(track_rect(outer, 1_000), Rect { left: 1_400, top: 20, right: 18_500, bottom: 820 });
}

#[test]
fn hover_and_drag_time_agree() {
    let outer = Rect { left: 0, top: 0, right: 10_000, bottom: 800 };
    let track = Rect { left: 1_000, top: 0, right: 9_000, bottom: 800 };
    for x in [-5, 1_000, 1_001, 3_000, 8_999, 9_000, 9_500, 10_000, 10_001] {
        assert_eq!(hover_time(8_000, track, x), drag_time(8_000, outer, track, x));
    }
    assert_eq!(hover_time(8_000, track, 3_000), 2_000);
    assert_eq!(hover_time(3, track, 3_000), 0);
    assert_eq!(hover_time(3, track, 5_000), 1);
}

#[test]
fn preview_width_is_clamped_to_track() {
    let track = Rect { left: 1_000, top: 0, right: 9_000, bottom: 800 };
    assert_eq!(preview_width(track, 0), 0);
    assert_eq!(preview_width(track, 4_000), 3_000);
    assert_eq!(preview_width(track, 20_000), 8_000);
}

#[test]
fn fill_width_rounds_down() {
    assert_eq!(fill_width(10, 1, 3), 3);
    assert_eq!(fill_width(91_000, 10_000, 100_000), 9_100);
    assert_eq!(fill_width(91_000, 100_000, 100_000), 91_000);
}

#[test]
fn lighten_scales_and_saturates() {
    assert_eq!(lighten_channel(0), 0);
    assert_eq!(lighten_channel(100), 110);
    assert_eq!(lighten_channel(155), 170);
    assert_eq!(lighten_channel(231), 254);
    assert_eq!(lighten_channel(232), 255);
    assert_eq!(lighten_channel(255), 255);
}

#[test]
fn seek_color_is_lighter_and_half_transparent() {
    let c = seek_color(Rgba::rgb(0, 155, 255));
    let expected = egui::Color32::from_rgba_unmultiplied(0, 170, 255, 128).to_array();
    assert_eq!([c.r, c.g, c.b, c.a], expected);
    assert_eq!(c.a, 128);
    assert!(c.g < 170);
}
