use velopack_bins::dialog_layout::{layout_in_range, try_build_layout, try_command_link_text_rects};
use velopack_bins::dialog::{DialogButtonSpec, DialogOptions, DialogResult};
use velopack_bins::dialog_layout::{
    build_layout, click_action, command_link_text_rects, hovered_button, nc_hit_test, ClickAction, DialogHover,
    DialogMetrics, DialogShape, HitArea,
};
use velopack_bins::geometry::{centered_origin, rect_contains, Point, Rect};

fn metrics_at_96_dpi() -> DialogMetrics {
    DialogMetrics {
        margin: 16,
        gap: 8,
        title_h: 20,
        header_h: 32,
        footer_h: 14,
        logo_size: 48,
        button_h: 52,
        button_spacing: 6,
        close_size: 32,
        body_min_h: 72,
        text_pad: 12,
        text_vpad: 6,
        main_text_h: 14,
        sub_text_h: 12,
    }
}

fn r(left: i32, top: i32, right: i32, bottom: i32) -> Rect {
    Rect { left, top, right, bottom }
}

fn two_button_options(footer_link: bool) -> DialogOptions {
    DialogOptions {
        title: "t".to_string(),
        header: Some("h".to_string()),
        body: "b".to_string(),
        buttons: vec![
            DialogButtonSpec::primary(DialogResult::Yes, "yes"),
            DialogButtonSpec::secondary(DialogResult::Cancel, "no"),
        ],
        footer_text: if footer_link { Some("log".to_string()) } else { None },
        footer_link: if footer_link { Some("C:\\log".to_string()) } else { None },
    }
}

#[test]
fn rect_contains_includes_edges() {
    let rect = r(10, 10, 20, 20);
    assert!(rect_contains(&rect, Point { x: 10, y: 10 }));
    assert!(rect_contains(&rect, Point { x: 20, y: 20 }));
    assert!(rect_contains(&rect, Point { x: 15, y: 12 }));
    assert!(!rect_contains(&rect, Point { x: 21, y: 15 }));
    assert!(!rect_contains(&rect, Point { x: 15, y: 9 }));
}

#[test]
fn centered_origin_rounds_toward_zero() {
    assert_eq!(centered_origin(1920, 1080, 460, 350), Point { x: 730, y: 365 });
    assert_eq!(centered_origin(100, 100, 103, 100), Point { x: -1, y: 0 });
}

#[test]
fn layout_with_header_logo_and_two_buttons() {
    let m = metrics_at_96_dpi();
    let s = DialogShape { has_header: true, has_footer: false, has_logo: true, button_count: 2 };
    let l = build_layout(&m, s, 460, 350);
    assert!(l.has_command_links);
    assert_eq!(l.close_rect, r(412, 16, 444, 48));
    assert_eq!(l.logo_rect, Some(r(16, 16, 64, 64)));
    assert_eq!(l.title_rect, r(72, 16, 404, 64));
    assert_eq!(l.header_rect, Some(r(16, 72, 444, 104)));
    assert_eq!(l.body_rect, r(16, 112, 444, 214));
    assert_eq!(l.button_rects, vec![r(16, 222, 444, 274), r(16, 280, 444, 332)]);
    assert_eq!(l.footer_rect, None);
}

#[test]
fn layout_with_footer_and_no_logo() {
    let m = metrics_at_96_dpi();
    let s = DialogShape { has_header: false, has_footer: true, has_logo: false, button_count: 1 };
    let l = build_layout(&m, s, 460, 300);
    assert_eq!(l.logo_rect, None);
    assert_eq!(l.title_rect, r(16, 16, 404, 64));
    assert_eq!(l.header_rect, None);
    assert_eq!(l.footer_rect, Some(r(16, 270, 444, 284)));
    assert_eq!(l.button_rects, vec![r(16, 210, 444, 262)]);
    assert_eq!(l.body_rect, r(16, 72, 444, 202));
}

#[test]
fn body_keeps_its_minimum_height() {
    let m = metrics_at_96_dpi();
    let s = DialogShape { has_header: false, has_footer: false, has_logo: false, button_count: 3 };
    let l = build_layout(&m, s, 460, 200);
    assert_eq!(l.body_rect, r(16, 72, 444, 144));
    assert_eq!(l.button_rects.len(), 3);
    assert_eq!(l.button_rects[0], r(16, 12, 444, 64));
}

#[test]
fn layout_without_buttons() {
    let m = metrics_at_96_dpi();
    let s = DialogShape { has_header: false, has_footer: false, has_logo: false, button_count: 0 };
    let l = build_layout(&m, s, 460, 300);
    assert!(l.button_rects.is_empty());
    assert_eq!(l.body_rect, r(16, 72, 444, 276));
}

#[test]
fn command_link_lines_are_centred() {
    let m = metrics_at_96_dpi();
    let (main, sub) = command_link_text_rects(&m, &r(16, 222, 444, 274));
    assert_eq!(main, r(28, 235, 432, 249));
    assert_eq!(sub, r(28, 249, 432, 261));
    let (main, sub) = command_link_text_rects(&m, &r(0, 0, 100, 20));
    assert_eq!(main, r(12, 6, 88, 20));
    assert_eq!(sub, r(12, 20, 88, 32));
}

#[test]
fn hit_test_and_hover() {
    let m = metrics_at_96_dpi();
    let opts = two_button_options(true);
    let s = DialogShape::of(&opts, true);
    assert_eq!(s, DialogShape { has_header: true, has_footer: true, has_logo: true, button_count: 2 });
    let l = build_layout(&m, s, 460, 372);
    let footer = l.footer_rect.unwrap();
    assert_eq!(footer, r(16, 342, 444, 356));
    assert_eq!(nc_hit_test(&l, Point { x: 420, y: 20 }, true), HitArea::Client);
    assert_eq!(nc_hit_test(&l, Point { x: 100, y: 230 }, true), HitArea::Client);
    assert_eq!(nc_hit_test(&l, Point { x: 100, y: 150 }, true), HitArea::Caption);
    assert_eq!(nc_hit_test(&l, Point { x: 100, y: 350 }, true), HitArea::Client);
    assert_eq!(nc_hit_test(&l, Point { x: 100, y: 350 }, false), HitArea::Caption);
    assert_eq!(hovered_button(&l, Point { x: 100, y: 230 }), Some(0));
    assert_eq!(hovered_button(&l, Point { x: 100, y: 290 }), Some(1));
    assert_eq!(hovered_button(&l, Point { x: 100, y: 277 }), None);
}

#[test]
fn clicks_close_choose_or_open_link() {
    let m = metrics_at_96_dpi();
    let opts = two_button_options(true);
    let l = build_layout(&m, DialogShape::of(&opts, true), 460, 372);
    assert_eq!(click_action(&l, &opts, Point { x: 420, y: 20 }), ClickAction::Close(DialogResult::Cancel));
    assert_eq!(click_action(&l, &opts, Point { x: 100, y: 230 }), ClickAction::Close(DialogResult::Yes));
    assert_eq!(click_action(&l, &opts, Point { x: 100, y: 290 }), ClickAction::Close(DialogResult::Cancel));
    assert_eq!(click_action(&l, &opts, Point { x: 100, y: 350 }), ClickAction::OpenFooterLink);
    assert_eq!(click_action(&l, &opts, Point { x: 100, y: 150 }), ClickAction::Nothing);
    let plain = two_button_options(false);
    let l = build_layout(&m, DialogShape::of(&plain, false), 460, 350);
    assert_eq!(click_action(&l, &plain, Point { x: 100, y: 340 }), ClickAction::Nothing);
}

#[test]
fn hover_tracks_buttons_and_close() {
    let m = metrics_at_96_dpi();
    let opts = two_button_options(false);
    let l = build_layout(&m, DialogShape::of(&opts, true), 460, 350);
    let mut h = DialogHover::new();
    let rp = h.mouse_move(&l, Point { x: 100, y: 230 });
    assert!(rp.all && !rp.close);
    assert_eq!(h.button, Some(0));
    let rp = h.mouse_move(&l, Point { x: 101, y: 231 });
    assert!(!rp.all && !rp.close);
    let rp = h.mouse_move(&l, Point { x: 420, y: 20 });
    assert!(rp.all && rp.close);
    assert!(h.close && h.button.is_none());
    assert!(h.mouse_leave());
    assert!(!h.mouse_leave());
}

#[test]
fn checked_layout_refuses_overflow() {
    let m = metrics_at_96_dpi();
    let s = DialogShape { has_header: true, has_footer: true, has_logo: true, button_count: 2 };
    assert!(layout_in_range(&m, s, 460, 372));
    let l = try_build_layout(&m, s, 460, 372).unwrap();
    assert_eq!(l.close_rect, r(412, 16, 444, 48));
    assert!(!layout_in_range(&m, s, i32::MIN, 372));
    assert!(try_build_layout(&m, s, 460, i32::MIN + 3).is_none());
    let many = DialogShape { has_header: false, has_footer: false, has_logo: false, button_count: 100_000_000 };
    assert!(try_build_layout(&m, many, 460, 372).is_none());
    let mut bad = m;
    bad.gap = -1;
    assert!(try_build_layout(&bad, s, 460, 372).is_none());
    assert!(try_command_link_text_rects(&m, &r(16, 222, 444, 274)).is_some());
    assert!(try_command_link_text_rects(&m, &r(i32::MAX, 0, 0, 10)).is_none());
}
