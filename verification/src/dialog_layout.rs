use vstd::prelude::*;

use crate::dialog::{default_dialog_result, default_result_of, has_cancel_button, DialogOptions, DialogResult};
use crate::geometry::{fits_i32, max_int, point_in_rect, rect_contains, Point, Rect};

verus! {

/// The dialog's measures in pixels, already scaled to the window's DPI.
#[derive(Debug, Clone, Copy, PartialEq, Eq, Structural)]
pub struct DialogMetrics {
    pub margin: i32,
    pub gap: i32,
    pub title_h: i32,
    pub header_h: i32,
    pub footer_h: i32,
    pub logo_size: i32,
    pub button_h: i32,
    pub button_spacing: i32,
    pub close_size: i32,
    pub body_min_h: i32,
    pub text_pad: i32,
    pub text_vpad: i32,
    pub main_text_h: i32,
    pub sub_text_h: i32,
}

impl DialogMetrics {
    /// Scaled measures are never negative.
    pub open spec fn valid(self) -> bool {
        &&& self.margin >= 0
        &&& self.gap >= 0
        &&& self.title_h >= 0
        &&& self.header_h >= 0
        &&& self.footer_h >= 0
        &&& self.logo_size >= 0
        &&& self.button_h >= 0
        &&& self.button_spacing >= 0
        &&& self.close_size >= 0
        &&& self.body_min_h >= 0
        &&& self.text_pad >= 0
        &&& self.text_vpad >= 0
        &&& self.main_text_h >= 0
        &&& self.sub_text_h >= 0
    }
}

/// Where everything of a dialog is drawn.
pub struct DialogLayout {
    pub close_rect: Rect,
    pub logo_rect: Option<Rect>,
    pub title_rect: Rect,
    pub header_rect: Option<Rect>,
    pub body_rect: Rect,
    pub button_rects: Vec<Rect>,
    pub footer_rect: Option<Rect>,
    pub has_command_links: bool,
}

/// What the dialog's content asks of the layout.
#[derive(Debug, Clone, Copy, PartialEq, Eq, Structural)]
pub struct DialogShape {
    pub has_header: bool,
    pub has_footer: bool,
    pub has_logo: bool,
    pub button_count: usize,
}

pub open spec fn top_row_height(m: DialogMetrics) -> int {
    max_int(m.logo_size as int, m.title_h as int)
}

pub open spec fn header_height(m: DialogMetrics, s: DialogShape) -> int {
    if s.has_header {
        m.header_h as int
    } else {
        0
    }
}

pub open spec fn footer_height(m: DialogMetrics, s: DialogShape) -> int {
    if s.has_footer {
        m.footer_h as int
    } else {
        0
    }
}

/// Height of the stack of buttons: each button, and a gap between two of them.
pub open spec fn buttons_area_height(m: DialogMetrics, n: int) -> int {
    n * m.button_h + max_int(n - 1, 0) * m.gap
}

pub open spec fn title_bottom(m: DialogMetrics) -> int {
    m.margin + top_row_height(m)
}

pub open spec fn header_top(m: DialogMetrics) -> int {
    title_bottom(m) + m.gap
}

pub open spec fn body_top(m: DialogMetrics, s: DialogShape) -> int {
    if header_height(m, s) > 0 {
        header_top(m) + header_height(m, s) + m.gap
    } else {
        title_bottom(m) + m.gap
    }
}

pub open spec fn footer_bottom(m: DialogMetrics, height: int) -> int {
    height - m.margin
}

pub open spec fn buttons_bottom(m: DialogMetrics, s: DialogShape, height: int) -> int {
    if footer_height(m, s) > 0 {
        footer_bottom(m, height) - footer_height(m, s) - m.gap
    } else {
        footer_bottom(m, height)
    }
}

pub open spec fn buttons_top(m: DialogMetrics, s: DialogShape, height: int) -> int {
    buttons_bottom(m, s, height) - buttons_area_height(m, s.button_count as int)
}

/// Distance from one button's top to the next one's.
pub open spec fn button_step(m: DialogMetrics) -> int {
    m.button_h + m.button_spacing
}

/// Top of the `k`-th button.
pub open spec fn button_top(m: DialogMetrics, s: DialogShape, height: int, k: int) -> int {
    buttons_top(m, s, height) + k * button_step(m)
}

pub open spec fn close_left(m: DialogMetrics, width: int) -> int {
    width - m.margin - m.close_size
}

pub open spec fn title_left(m: DialogMetrics, s: DialogShape) -> int {
    if s.has_logo {
        m.margin + m.logo_size + m.gap
    } else {
        m.margin as int
    }
}

/// Every value `build_layout` computes fits an `i32`.
pub open spec fn layout_fits(m: DialogMetrics, s: DialogShape, width: int, height: int) -> bool {
    let n = s.button_count as int;
    &&& n <= i32::MAX
    &&& fits_i32(width - m.margin)
    &&& fits_i32(close_left(m, width))
    &&& fits_i32(m.margin + m.close_size)
    &&& fits_i32(m.margin + m.logo_size)
    &&& fits_i32(m.margin + m.logo_size + m.gap)
    &&& fits_i32(close_left(m, width) - m.gap)
    &&& fits_i32(header_top(m) + header_height(m, s) + m.gap)
    &&& fits_i32(height - m.margin)
    &&& fits_i32(footer_bottom(m, height) - footer_height(m, s) - m.gap)
    &&& fits_i32(n * m.button_h)
    &&& fits_i32(buttons_area_height(m, n))
    &&& fits_i32(buttons_top(m, s, height))
    &&& fits_i32(buttons_top(m, s, height) - m.gap)
    &&& fits_i32(body_top(m, s) + m.body_min_h)
    &&& fits_i32(2 * m.margin)
    &&& fits_i32(width - 2 * m.margin)
    &&& fits_i32(button_step(m))
    &&& fits_i32(button_top(m, s, height, n))
    &&& (n > 0 ==> fits_i32(button_top(m, s, height, n - 1) + m.button_h))
}

proof fn lemma_step_monotone(a: int, k: int, n: int, step: int)
    requires
        0 <= k <= n,
        step >= 0,
    ensures
        a <= a + k * step <= a + n * step,
{
    assert(k * step <= n * step) by (nonlinear_arith)
        requires
            0 <= k <= n,
            step >= 0,
    ;
    assert(0 <= k * step) by (nonlinear_arith)
        requires
            0 <= k,
            step >= 0,
    ;
}

proof fn lemma_step_next(a: int, k: int, step: int)
    ensures
        a + k * step + step == a + (k + 1) * step,
{
    assert((k + 1) * step == k * step + step) by (nonlinear_arith);
}

/// `l` is the layout of a dialog of shape `s` drawn with measures `m` in a client area of
/// `width` by `height` pixels.
pub open spec fn laid_out(
    l: DialogLayout,
    m: DialogMetrics,
    s: DialogShape,
    width: int,
    height: int,
) -> bool {
    &&& l.has_command_links
    &&& l.close_rect == (Rect {
        left: close_left(m, width) as i32,
        top: m.margin,
        right: (width - m.margin) as i32,
        bottom: (m.margin + m.close_size) as i32
    })
    &&& l.logo_rect == (if s.has_logo {
        Some(
            Rect {
                left: m.margin,
                top: m.margin,
                right: (m.margin + m.logo_size) as i32,
                bottom: (m.margin + m.logo_size) as i32,
            },
        )
    } else {
        None
    })
    &&& l.title_rect == (Rect {
        left: title_left(m, s) as i32,
        top: m.margin,
        right: (close_left(m, width) - m.gap) as i32,
        bottom: title_bottom(m) as i32
    })
    &&& l.header_rect == (if header_height(m, s) > 0 {
        Some(
            Rect {
                left: m.margin,
                top: header_top(m) as i32,
                right: (width - m.margin) as i32,
                bottom: (header_top(m) + header_height(m, s)) as i32,
            },
        )
    } else {
        None
    })
    &&& l.footer_rect == (if footer_height(m, s) > 0 {
        Some(
            Rect {
                left: m.margin,
                top: (footer_bottom(m, height) - footer_height(m, s)) as i32,
                right: (width - m.margin) as i32,
                bottom: footer_bottom(m, height) as i32,
            },
        )
    } else {
        None
    })
    &&& l.body_rect == (Rect {
        left: m.margin,
        top: body_top(m, s) as i32,
        right: (width - m.margin) as i32,
        bottom: max_int(
            buttons_top(m, s, height) - m.gap,
            body_top(m, s) + m.body_min_h,
        ) as i32
    })
    &&& l.button_rects@.len() == s.button_count
    &&& forall|k: int|
        0 <= k < s.button_count ==> #[trigger] l.button_rects@[k] == (Rect {
            left: m.margin,
            top: button_top(m, s, height, k) as i32,
            right: (width - m.margin) as i32,
            bottom: (button_top(m, s, height, k) + m.button_h) as i32,
        })
}

/// Lays the dialog out in a client area of `width` by `height` pixels: close button top right,
/// logo and title on the top row, header and body below, the buttons stacked above the footer,
/// which sits on the bottom margin.
pub fn build_layout(m: &DialogMetrics, s: DialogShape, width: i32, height: i32) -> (res:
    DialogLayout)
    requires
        m.valid(),
        layout_fits(*m, s, width as int, height as int),
    ensures
        laid_out(res, *m, s, width as int, height as int),
{
    let margin = m.margin;
    let gap = m.gap;
    let title_h = m.title_h;
    let header_h = if s.has_header {
        m.header_h
    } else {
        0
    };
    let footer_h = if s.has_footer {
        m.footer_h
    } else {
        0
    };
    let logo_size = m.logo_size;
    let top_row_h = if logo_size >= title_h {
        logo_size
    } else {
        title_h
    };
    let has_command_links = true;
    let n = s.button_count as i32;
    let btn_h = m.button_h;
    let spacing_between = if n - 1 >= 0 {
        n - 1
    } else {
        0
    };
    proof {
        assert(spacing_between * gap <= n * btn_h + spacing_between * gap) by (nonlinear_arith)
            requires
                n >= 0,
                btn_h >= 0,
        ;
        assert(0 <= spacing_between * gap) by (nonlinear_arith)
            requires
                spacing_between >= 0,
                gap >= 0,
        ;
        assert(0 <= n * btn_h) by (nonlinear_arith)
            requires
                n >= 0,
                btn_h >= 0,
        ;
    }
    let buttons_area_h = n * btn_h + spacing_between * gap;

    let close_size = m.close_size;
    let close_offset = margin;
    let close_rect = Rect {
        left: width - close_offset - close_size,
        top: close_offset,
        right: width - close_offset,
        bottom: close_offset + close_size,
    };
    let logo_rect = if s.has_logo {
        Some(
            Rect {
                left: margin,
                top: close_offset,
                right: margin + logo_size,
                bottom: close_offset + logo_size,
            },
        )
    } else {
        None
    };
    let title_left_px = match logo_rect {
        Some(r) => r.right + gap,
        None => margin,
    };
    let title_rect = Rect {
        left: title_left_px,
        top: close_offset,
        right: close_rect.left - gap,
        bottom: close_offset + top_row_h,
    };
    let header_top_px = close_offset + top_row_h + gap;
    let header_rect = if header_h > 0 {
        Some(
            Rect {
                left: margin,
                top: header_top_px,
                right: width - margin,
                bottom: header_top_px + header_h,
            },
        )
    } else {
        None
    };
    let body_top_px = match header_rect {
        Some(r) => r.bottom + gap,
        None => title_rect.bottom + gap,
    };
    let footer_bottom_px = height - margin;
    let footer_rect = if footer_h > 0 {
        Some(
            Rect {
                left: margin,
                top: footer_bottom_px - footer_h,
                right: width - margin,
                bottom: footer_bottom_px,
            },
        )
    } else {
        None
    };
    let buttons_bottom_px = match footer_rect {
        Some(fr) => fr.top - gap,
        None => footer_bottom_px,
    };
    let buttons_top_px = buttons_bottom_px - buttons_area_h;
    let body_bottom = buttons_top_px - gap;
    let body_min = body_top_px + m.body_min_h;
    let body_rect = Rect {
        left: margin,
        top: body_top_px,
        right: width - margin,
        bottom: if body_bottom >= body_min {
            body_bottom
        } else {
            body_min
        },
    };

    let mut button_rects: Vec<Rect> = Vec::with_capacity(s.button_count);
    let spacing = m.button_spacing;
    let btn_w = width - margin * 2;
    let mut y = buttons_top_px;
    let mut i: usize = 0;
    while i < s.button_count
        invariant
            m.valid(),
            layout_fits(*m, s, width as int, height as int),
            i <= s.button_count,
            n == s.button_count,
            btn_h == m.button_h,
            spacing == m.button_spacing,
            margin == m.margin,
            btn_w == width - 2 * m.margin,
            buttons_top_px == buttons_top(*m, s, height as int),
            y == button_top(*m, s, height as int, i as int),
            button_rects@.len() == i,
            forall|k: int|
                0 <= k < i ==> #[trigger] button_rects@[k] == (Rect {
                    left: m.margin,
                    top: button_top(*m, s, height as int, k) as i32,
                    right: (width - m.margin) as i32,
                    bottom: (button_top(*m, s, height as int, k) + m.button_h) as i32,
                }),
        decreases s.button_count - i,
    {
        proof {
            let step = button_step(*m);
            lemma_step_monotone(buttons_top_px as int, i as int, n as int, step);
            lemma_step_monotone(buttons_top_px as int, i as int, n - 1, step);
            lemma_step_monotone(buttons_top_px as int, i + 1, n as int, step);
            lemma_step_next(buttons_top_px as int, i as int, step);
        }
        button_rects.push(Rect { left: margin, top: y, right: margin + btn_w, bottom: y + btn_h });
        y = y + (btn_h + spacing);
        i = i + 1;
    }

    DialogLayout {
        close_rect,
        logo_rect,
        title_rect,
        header_rect,
        body_rect,
        button_rects,
        footer_rect,
        has_command_links,
    }
}

fn in_i32(x: i128) -> (res: bool)
    ensures
        res == fits_i32(x as int),
{
    -2147483648i128 <= x && x <= 2147483647i128
}

proof fn lemma_small_product(n: int, x: int)
    requires
        0 <= n <= 0x8000_0000,
        -0x1_0000_0000 <= x <= 0x1_0000_0000,
    ensures
        -0x80_0000_0000_0000_0000 <= n * x <= 0x80_0000_0000_0000_0000,
{
    assert(-0x80_0000_0000_0000_0000 <= n * x <= 0x80_0000_0000_0000_0000) by (nonlinear_arith)
        requires
            0 <= n <= 0x8000_0000,
            -0x1_0000_0000 <= x <= 0x1_0000_0000,
    ;
}

/// Whether `build_layout` can lay out a dialog of shape `s` with measures `m` in a client area
/// of `width` by `height` pixels: the measures are valid and every value fits an `i32`.
pub fn layout_in_range(m: &DialogMetrics, s: DialogShape, width: i32, height: i32) -> (res: bool)
    ensures
        res == (m.valid() && layout_fits(*m, s, width as int, height as int)),
{
    if !(m.margin >= 0 && m.gap >= 0 && m.title_h >= 0 && m.header_h >= 0 && m.footer_h >= 0
        && m.logo_size >= 0 && m.button_h >= 0 && m.button_spacing >= 0 && m.close_size >= 0
        && m.body_min_h >= 0 && m.text_pad >= 0 && m.text_vpad >= 0 && m.main_text_h >= 0
        && m.sub_text_h >= 0) {
        return false;
    }
    if s.button_count > 2147483647usize {
        return false;
    }
    let n = s.button_count as i128;
    let w = width as i128;
    let h = height as i128;
    let margin = m.margin as i128;
    let gap = m.gap as i128;
    let logo = m.logo_size as i128;
    let title = m.title_h as i128;
    let button_h = m.button_h as i128;
    let spacing = m.button_spacing as i128;
    let close_size = m.close_size as i128;
    let top_row = if logo >= title {
        logo
    } else {
        title
    };
    let header_h: i128 = if s.has_header {
        m.header_h as i128
    } else {
        0
    };
    let footer_h: i128 = if s.has_footer {
        m.footer_h as i128
    } else {
        0
    };
    let between: i128 = if n - 1 >= 0 {
        n - 1
    } else {
        0
    };
    let step = button_h + spacing;
    proof {
        lemma_small_product(n as int, button_h as int);
        lemma_small_product(between as int, gap as int);
        lemma_small_product(n as int, step as int);
        lemma_small_product(between as int, step as int);
    }
    let area = n * button_h + between * gap;
    let title_bottom_v = margin + top_row;
    let header_top_v = title_bottom_v + gap;
    let body_top_v = if header_h > 0 {
        header_top_v + header_h + gap
    } else {
        title_bottom_v + gap
    };
    let footer_bottom_v = h - margin;
    let buttons_bottom_v = if footer_h > 0 {
        footer_bottom_v - footer_h - gap
    } else {
        footer_bottom_v
    };
    let buttons_top_v = buttons_bottom_v - area;
    let close_left_v = w - margin - close_size;
    let last_ok = if n > 0 {
        in_i32(buttons_top_v + between * step + button_h)
    } else {
        true
    };
    in_i32(w - margin) && in_i32(close_left_v) && in_i32(margin + close_size) && in_i32(
        margin + logo,
    ) && in_i32(margin + logo + gap) && in_i32(close_left_v - gap) && in_i32(
        header_top_v + header_h + gap,
    ) && in_i32(h - margin) && in_i32(footer_bottom_v - footer_h - gap) && in_i32(n * button_h)
        && in_i32(area) && in_i32(buttons_top_v) && in_i32(buttons_top_v - gap) && in_i32(
        body_top_v + m.body_min_h as i128,
    ) && in_i32(2 * margin) && in_i32(w - 2 * margin) && in_i32(step) && in_i32(
        buttons_top_v + n * step,
    ) && last_ok
}

/// Lays the dialog out as `build_layout` does, or gives `None` where the measures are invalid
/// or a value would not fit an `i32`.
pub fn try_build_layout(m: &DialogMetrics, s: DialogShape, width: i32, height: i32) -> (res:
    Option<DialogLayout>)
    ensures
        res is Some <==> (m.valid() && layout_fits(*m, s, width as int, height as int)),
        res matches Some(l) ==> laid_out(l, *m, s, width as int, height as int),
{
    if layout_in_range(m, s, width, height) {
        Some(build_layout(m, s, width, height))
    } else {
        None
    }
}

/// Buttons are stacked top to bottom without overlapping: a button ends no lower than any later
/// one begins.
pub proof fn lemma_buttons_do_not_overlap(
    m: DialogMetrics,
    s: DialogShape,
    height: int,
    k: int,
    j: int,
)
    requires
        m.valid(),
        0 <= k < j,
    ensures
        button_top(m, s, height, k) + m.button_h <= button_top(m, s, height, j),
{
    assert(k * button_step(m) + button_step(m) <= j * button_step(m)) by (nonlinear_arith)
        requires
            0 <= k < j,
            button_step(m) >= 0,
    ;
}

/// `k` is the first of `rects` that holds `pt`.
pub open spec fn is_first_hit(rects: Seq<Rect>, pt: Point, k: int) -> bool {
    &&& 0 <= k < rects.len()
    &&& point_in_rect(rects[k], pt)
    &&& forall|j: int| 0 <= j < k ==> !point_in_rect(#[trigger] rects[j], pt)
}

/// Whether any of `rects` holds `pt`.
pub open spec fn any_hit(rects: Seq<Rect>, pt: Point) -> bool {
    exists|k: int| 0 <= k < rects.len() && point_in_rect(#[trigger] rects[k], pt)
}

/// The index of the first of `rects` that holds `pt` (meaningful when one does).
pub open spec fn first_hit(rects: Seq<Rect>, pt: Point) -> int {
    choose|k: int| is_first_hit(rects, pt, k)
}

/// The first button under `pt`, if any: the button drawn hovered.
pub fn hovered_button(layout: &DialogLayout, pt: Point) -> (res: Option<usize>)
    ensures
        res is None <==> !any_hit(layout.button_rects@, pt),
        res matches Some(k) ==> is_first_hit(layout.button_rects@, pt, k as int),
{
    let n = layout.button_rects.len();
    let mut i: usize = 0;
    while i < n
        invariant
            n == layout.button_rects@.len(),
            i <= n,
            forall|j: int| 0 <= j < i ==> !point_in_rect(#[trigger] layout.button_rects@[j], pt),
        decreases n - i,
    {
        if rect_contains(&layout.button_rects[i], pt) {
            return Some(i);
        }
        i = i + 1;
    }
    None
}

/// How a point of the window acts when the window is dragged or clicked.
#[derive(Debug, Clone, Copy, PartialEq, Eq, Structural)]
pub enum HitArea {
    /// Handled by the dialog (a button, the close button, or a footer link).
    Client,
    /// Drags the window.
    Caption,
}

/// Which part of the dialog is under the cursor.
pub open spec fn hit_area_at(layout: DialogLayout, pt: Point, has_footer_link: bool) -> HitArea {
    if point_in_rect(layout.close_rect, pt) || any_hit(layout.button_rects@, pt) || (
    layout.footer_rect matches Some(f) && point_in_rect(f, pt) && has_footer_link) {
        HitArea::Client
    } else {
        HitArea::Caption
    }
}

/// Which part of the dialog is under the cursor: the close button, the buttons and a footer
/// that links somewhere are client area; everything else drags the window.
pub fn nc_hit_test(layout: &DialogLayout, pt: Point, has_footer_link: bool) -> (res: HitArea)
    ensures
        res == hit_area_at(*layout, pt, has_footer_link),
        res == HitArea::Client <==> (point_in_rect(layout.close_rect, pt) || any_hit(
            layout.button_rects@,
            pt,
        ) || (layout.footer_rect matches Some(f) && point_in_rect(f, pt) && has_footer_link)),
{
    if rect_contains(&layout.close_rect, pt) || hovered_button(layout, pt).is_some() {
        HitArea::Client
    } else if let Some(footer_rect) = layout.footer_rect {
        if rect_contains(&footer_rect, pt) && has_footer_link {
            HitArea::Client
        } else {
            HitArea::Caption
        }
    } else {
        HitArea::Caption
    }
}

/// What a click (button released) at a point does.
#[derive(Debug, Clone, Copy, PartialEq, Eq, Structural)]
pub enum ClickAction {
    /// Close the dialog with this answer.
    Close(DialogResult),
    /// Open the footer's link.
    OpenFooterLink,
    /// Nothing.
    Nothing,
}

/// What a click at `pt` does.
pub open spec fn click_outcome(layout: DialogLayout, opts: DialogOptions, pt: Point) -> ClickAction {
    if point_in_rect(layout.close_rect, pt) {
        ClickAction::Close(default_result_of(opts.buttons@))
    } else if any_hit(layout.button_rects@, pt) {
        ClickAction::Close(opts.buttons@[first_hit(layout.button_rects@, pt)].result)
    } else if (layout.footer_rect matches Some(f) && point_in_rect(f, pt)) && opts.footer_link is Some {
        ClickAction::OpenFooterLink
    } else {
        ClickAction::Nothing
    }
}

/// The close button closes with the default answer; a button closes with its own answer; the
/// footer opens its link when it has one.
pub fn click_action(layout: &DialogLayout, opts: &DialogOptions, pt: Point) -> (res: ClickAction)
    requires
        layout.button_rects@.len() <= opts.buttons@.len(),
    ensures
        res == click_outcome(*layout, *opts, pt),
        point_in_rect(layout.close_rect, pt) ==> res == ClickAction::Close(
            default_result_of(opts.buttons@),
        ),
        !point_in_rect(layout.close_rect, pt) ==> (forall|k: int|
            #[trigger] is_first_hit(layout.button_rects@, pt, k) ==> res == ClickAction::Close(
                opts.buttons@[k].result,
            )),
        !point_in_rect(layout.close_rect, pt) && !any_hit(layout.button_rects@, pt) ==> res == (
        if (layout.footer_rect matches Some(f) && point_in_rect(f, pt)) && opts.footer_link is Some {
            ClickAction::OpenFooterLink
        } else {
            ClickAction::Nothing
        }),
{
    if rect_contains(&layout.close_rect, pt) {
        return ClickAction::Close(default_dialog_result(opts));
    }
    match hovered_button(layout, pt) {
        Some(idx) => {
            proof {
                assert forall|k: int| #[trigger]
                    is_first_hit(layout.button_rects@, pt, k) implies k == idx as int by {
                    if k < idx as int {
                        assert(!point_in_rect(layout.button_rects@[k], pt));
                    }
                    if (idx as int) < k {
                        assert(!point_in_rect(layout.button_rects@[idx as int], pt));
                    }
                }
            }
            proof {
                assert(is_first_hit(layout.button_rects@, pt, idx as int));
                assert(first_hit(layout.button_rects@, pt) == idx as int);
            }
            return ClickAction::Close(opts.buttons[idx].result);
        },
        None => {},
    }
    if let Some(footer_rect) = layout.footer_rect {
        if rect_contains(&footer_rect, pt) {
            if opts.footer_link.is_some() {
                return ClickAction::OpenFooterLink;
            }
        }
    }
    ClickAction::Nothing
}

/// The two lines of a command-link button's label: the main line and, below it, the sub line,
/// centred together vertically inside the button's padded area.
pub open spec fn command_link_start(m: DialogMetrics, rect: Rect) -> int {
    let top = rect.top + m.text_vpad;
    let bottom = rect.bottom - m.text_vpad;
    top + max_int(bottom - top - (m.main_text_h + m.sub_text_h), 0) / 2
}

/// Every value `command_link_text_rects` computes fits an `i32`.
pub open spec fn command_link_fits(m: DialogMetrics, rect: Rect) -> bool {
    let top = rect.top + m.text_vpad;
    let bottom = rect.bottom - m.text_vpad;
    &&& fits_i32(rect.left + m.text_pad)
    &&& fits_i32(rect.right - m.text_pad)
    &&& fits_i32(top)
    &&& fits_i32(bottom)
    &&& fits_i32(bottom - top)
    &&& fits_i32(m.main_text_h + m.sub_text_h)
    &&& fits_i32(bottom - top - (m.main_text_h + m.sub_text_h))
    &&& fits_i32(command_link_start(m, rect) + m.main_text_h + m.sub_text_h)
}

/// Where the main line and the sub line of a command-link button are drawn.
pub fn command_link_text_rects(m: &DialogMetrics, rect: &Rect) -> (res: (Rect, Rect))
    requires
        m.valid(),
        command_link_fits(*m, *rect),
    ensures
        ({
            let start = command_link_start(*m, *rect);
            &&& res.0 == (Rect {
                left: (rect.left + m.text_pad) as i32,
                top: start as i32,
                right: (rect.right - m.text_pad) as i32,
                bottom: (start + m.main_text_h) as i32,
            })
            &&& res.1 == (Rect {
                left: (rect.left + m.text_pad) as i32,
                top: (start + m.main_text_h) as i32,
                right: (rect.right - m.text_pad) as i32,
                bottom: (start + m.main_text_h + m.sub_text_h) as i32,
            })
        }),
{
    let text_rect = Rect {
        left: rect.left + m.text_pad,
        top: rect.top + m.text_vpad,
        right: rect.right - m.text_pad,
        bottom: rect.bottom - m.text_vpad,
    };
    let main_h = m.main_text_h;
    let sub_h = m.sub_text_h;
    let total_h = main_h + sub_h;
    let free = text_rect.bottom - text_rect.top - total_h;
    let free = if free >= 0 {
        free
    } else {
        0
    };
    let start_y = text_rect.top + free / 2;
    let main_rect = Rect {
        left: text_rect.left,
        top: start_y,
        right: text_rect.right,
        bottom: start_y + main_h,
    };
    let sub_rect = Rect {
        left: text_rect.left,
        top: start_y + main_h,
        right: text_rect.right,
        bottom: start_y + main_h + sub_h,
    };
    (main_rect, sub_rect)
}

impl DialogShape {
    /// What a dialog with these options, and with or without a logo, asks of the layout.
    pub fn of(opts: &DialogOptions, has_logo: bool) -> (res: DialogShape)
        ensures
            res.has_header == opts.header is Some,
            res.has_footer == opts.footer_text is Some,
            res.has_logo == has_logo,
            res.button_count == opts.buttons@.len(),
    {
        DialogShape {
            has_header: opts.header.is_some(),
            has_footer: opts.footer_text.is_some(),
            has_logo,
            button_count: opts.buttons.len(),
        }
    }
}

/// Which button and whether the close button are drawn hovered.
#[derive(Debug, Clone, Copy, PartialEq, Eq, Structural)]
pub struct DialogHover {
    pub button: Option<usize>,
    pub close: bool,
}

/// What has to be repainted after the hover state changed.
#[derive(Debug, Clone, Copy, PartialEq, Eq, Structural)]
pub struct HoverRepaint {
    /// The whole window (the hovered button changed).
    pub all: bool,
    /// The close button (its hover state changed).
    pub close: bool,
}

impl DialogHover {
    /// Nothing hovered.
    pub fn new() -> (res: DialogHover)
        ensures
            res.button is None,
            !res.close,
    {
        DialogHover { button: None, close: false }
    }

    /// The cursor moved to `pt`: the first button under it and the close button become the
    /// hovered ones; what changed is repainted.
    pub fn mouse_move(&mut self, layout: &DialogLayout, pt: Point) -> (res: HoverRepaint)
        ensures
            final(self).button is None <==> !any_hit(layout.button_rects@, pt),
            final(self).button matches Some(k) ==> is_first_hit(
                layout.button_rects@,
                pt,
                k as int,
            ),
            final(self).close == point_in_rect(layout.close_rect, pt),
            res.all == (final(self).button != old(self).button),
            res.close == (final(self).close != old(self).close),
    {
        let hovered_btn = hovered_button(layout, pt);
        let all = self.button != hovered_btn;
        self.button = hovered_btn;
        let is_in_close = rect_contains(&layout.close_rect, pt);
        let close = self.close != is_in_close;
        self.close = is_in_close;
        HoverRepaint { all, close }
    }

    /// The cursor left the window: nothing is hovered any more. Returns whether the window is
    /// to be repainted (something was hovered).
    pub fn mouse_leave(&mut self) -> (repaint: bool)
        ensures
            final(self).button is None,
            !final(self).close,
            repaint == (old(self).button is Some || old(self).close),
    {
        let repaint = self.button.is_some() || self.close;
        if repaint {
            self.button = None;
            self.close = false;
        }
        repaint
    }
}

/// The two label lines of a command-link button as `command_link_text_rects` places them, or
/// `None` where the measures are invalid or a value would not fit an `i32`.
pub fn try_command_link_text_rects(m: &DialogMetrics, rect: &Rect) -> (res: Option<(Rect, Rect)>)
    ensures
        res is Some <==> (m.valid() && command_link_fits(*m, *rect)),
        res matches Some(r) ==> ({
            let start = command_link_start(*m, *rect);
            &&& r.0 == (Rect {
                left: (rect.left + m.text_pad) as i32,
                top: start as i32,
                right: (rect.right - m.text_pad) as i32,
                bottom: (start + m.main_text_h) as i32,
            })
            &&& r.1 == (Rect {
                left: (rect.left + m.text_pad) as i32,
                top: (start + m.main_text_h) as i32,
                right: (rect.right - m.text_pad) as i32,
                bottom: (start + m.main_text_h + m.sub_text_h) as i32,
            })
        }),
{
    if !(m.margin >= 0 && m.gap >= 0 && m.title_h >= 0 && m.header_h >= 0 && m.footer_h >= 0
        && m.logo_size >= 0 && m.button_h >= 0 && m.button_spacing >= 0 && m.close_size >= 0
        && m.body_min_h >= 0 && m.text_pad >= 0 && m.text_vpad >= 0 && m.main_text_h >= 0
        && m.sub_text_h >= 0) {
        return None;
    }
    let top = rect.top as i64 + m.text_vpad as i64;
    let bottom = rect.bottom as i64 - m.text_vpad as i64;
    let total = m.main_text_h as i64 + m.sub_text_h as i64;
    let free = bottom - top - total;
    let free_or_zero: i64 = if free >= 0 {
        free
    } else {
        0
    };
    let start = top + free_or_zero / 2;
    let fits = in_i32((rect.left as i64 + m.text_pad as i64) as i128) && in_i32(
        (rect.right as i64 - m.text_pad as i64) as i128,
    ) && in_i32(top as i128) && in_i32(bottom as i128) && in_i32((bottom - top) as i128) && in_i32(
        total as i128,
    ) && in_i32(free as i128) && in_i32((start + total) as i128);
    if fits {
        Some(command_link_text_rects(m, rect))
    } else {
        None
    }
}

/// Every point where a click does something is client area: it never drags the window.
pub proof fn lemma_clickable_points_are_client_area(
    layout: DialogLayout,
    opts: DialogOptions,
    pt: Point,
)
    requires
        click_outcome(layout, opts, pt) != ClickAction::Nothing,
    ensures
        hit_area_at(layout, pt, opts.footer_link is Some) == HitArea::Client,
{
}

/// Clicking the close button gives the dialog's default answer; clicking a button gives that
/// button's answer.
pub proof fn lemma_click_answers(layout: DialogLayout, opts: DialogOptions, pt: Point, k: int)
    requires
        is_first_hit(layout.button_rects@, pt, k),
        !point_in_rect(layout.close_rect, pt),
    ensures
        click_outcome(layout, opts, pt) == ClickAction::Close(opts.buttons@[k].result),
{
    assert forall|j: int| #[trigger] is_first_hit(layout.button_rects@, pt, j) implies j == k by {
        if j < k {
            assert(!point_in_rect(layout.button_rects@[j], pt));
        }
        if k < j {
            assert(!point_in_rect(layout.button_rects@[k], pt));
        }
    }
    assert(is_first_hit(layout.button_rects@, pt, first_hit(layout.button_rects@, pt)));
}

/// In a dialog that offers `Cancel`, the close button answers as the `Cancel` button does; in
/// one that does not, it answers `OK`.
pub proof fn lemma_close_answers_like_cancel(
    layout: DialogLayout,
    opts: DialogOptions,
    close_pt: Point,
    button_pt: Point,
    k: int,
)
    requires
        point_in_rect(layout.close_rect, close_pt),
        !point_in_rect(layout.close_rect, button_pt),
        is_first_hit(layout.button_rects@, button_pt, k),
        k < opts.buttons@.len(),
    ensures
        opts.buttons@[k].result == DialogResult::Cancel ==> click_outcome(layout, opts, close_pt)
            == click_outcome(layout, opts, button_pt),
        !has_cancel_button(opts.buttons@) ==> click_outcome(layout, opts, close_pt)
            == ClickAction::Close(DialogResult::OK),
{
    lemma_click_answers(layout, opts, button_pt, k);
}

} // verus!
