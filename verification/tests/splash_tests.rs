use velopack_bins::splash::{close_rect_in_range, try_compute_layout};
use velopack_bins::dialog_layout::HitArea;
use velopack_bins::geometry::{Point, Rect};
use velopack_bins::splash::{
    close_button_rect, compute_layout, hover_repaint_rect, splash_hit_test, theme_colors, CloseHover,
    SplashMetrics, SplashProgress, CLOSE_DELAY_TICKS, MSG_CLOSE, MSG_INDEFINITE, MSG_NOMESSAGE,
};
use velopack_bins::theme::{Rgb, ThemeMode};

fn metrics_at_96_dpi() -> SplashMetrics {
    SplashMetrics {
        logo_size: 80,
        logo_top: 40,
        close_size: 32,
        close_offset: 16,
        title_y: 140,
        title_h: 40,
        status_y: 180,
        status_h: 60,
    }
}

#[test]
fn splash_layout_at_96_dpi() {
    let l = compute_layout(300, &metrics_at_96_dpi());
    assert_eq!(l.logo_x, 110);
    assert_eq!(l.logo_y, 40);
    assert_eq!(l.logo_size, 80);
    assert_eq!(l.close_rect, Rect { left: 252, top: 16, right: 284, bottom: 48 });
    assert_eq!(l.title_rect, Rect { left: 0, top: 140, right: 300, bottom: 180 });
    assert_eq!(l.status_rect, Rect { left: 20, top: 180, right: 280, bottom: 240 });
}

#[test]
fn splash_logo_is_centred_rounding_toward_zero() {
    assert_eq!(compute_layout(301, &metrics_at_96_dpi()).logo_x, 110);
    assert_eq!(compute_layout(51, &metrics_at_96_dpi()).logo_x, -14);
}

#[test]
fn close_button_and_hit_test() {
    let c = close_button_rect(450, 48, 24);
    assert_eq!(c, Rect { left: 378, top: 24, right: 426, bottom: 72 });
    assert_eq!(splash_hit_test(&c, Point { x: 400, y: 30 }), HitArea::Client);
    assert_eq!(splash_hit_test(&c, Point { x: 100, y: 30 }), HitArea::Caption);
    assert_eq!(hover_repaint_rect(&c, 450), Rect { left: 376, top: 22, right: 450, bottom: 74 });
}

#[test]
fn close_hover_reports_changes() {
    let mut h = CloseHover { hovered: false };
    assert!(!h.mouse_move(false));
    assert!(h.mouse_move(true));
    assert!(h.hovered);
    assert!(!h.mouse_move(true));
    assert!(h.mouse_leave());
    assert!(!h.mouse_leave());
}

#[test]
fn splash_palettes() {
    let d = theme_colors(ThemeMode::Dark);
    assert_eq!(d.progress_bg, 0xFF404040);
    assert_eq!(d.title_text, Rgb { r: 255, g: 255, b: 255 });
    let l = theme_colors(ThemeMode::Light);
    assert_eq!(l.status_text, Rgb { r: 90, g: 90, b: 90 });
    assert_eq!(l.progress_fill, 0xFF0078D4);
}

#[test]
fn progress_messages() {
    let mut p = SplashProgress::new();
    assert_eq!(p.target(), 0);
    assert!(p.apply_message(40));
    assert_eq!(p.target(), 40);
    assert!(p.apply_message(MSG_INDEFINITE));
    assert_eq!(p.target(), 40);
    assert!(p.apply_message(-7));
    assert_eq!(p.target(), 40);
    assert!(!p.apply_message(MSG_NOMESSAGE));
    assert!(!p.close_tick(true, true));
    assert!(p.apply_message(MSG_CLOSE));
    assert!(p.apply_message(100));
    assert_eq!(p.target(), 100);
}

#[test]
fn close_below_complete_waits_for_the_bar() {
    let mut p = SplashProgress::new();
    p.apply_message(60);
    p.apply_message(MSG_CLOSE);
    assert!(!p.close_tick(false, false));
    assert!(p.close_tick(false, true));
}

#[test]
fn close_at_complete_waits_out_the_delay() {
    let mut p = SplashProgress::new();
    p.apply_message(100);
    p.apply_message(MSG_CLOSE);
    assert!(!p.close_tick(false, true));
    for _ in 0..CLOSE_DELAY_TICKS {
        assert!(!p.close_tick(true, true));
    }
    assert!(p.close_tick(true, true));
    assert!(p.close_tick(true, false));
}

#[test]
fn checked_splash_layout_refuses_overflow() {
    let m = metrics_at_96_dpi();
    assert_eq!(try_compute_layout(300, &m), Some(compute_layout(300, &m)));
    assert!(try_compute_layout(i32::MIN, &m).is_none());
    assert!(close_rect_in_range(300, 32, 16));
    assert!(!close_rect_in_range(i32::MIN + 10, 32, 16));
}
