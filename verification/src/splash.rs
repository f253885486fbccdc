use vstd::prelude::*;

use crate::dialog_layout::HitArea;
use crate::geometry::{fits_i32, half_toward_zero, point_in_rect, rect_contains, Point, Rect};
use crate::theme::{follows_theme, readable_on, rgb, Rgb, ThemeMode};

verus! {

/// Width of the splash window at 96 DPI.
pub const WINDOW_WIDTH: i32 = 300;

/// Height of the splash window at 96 DPI.
pub const WINDOW_HEIGHT: i32 = 340;

/// Side of the square the logo is decoded to.
pub const LOGO_SOURCE_SIZE: i32 = 256;

/// Horizontal margin of the status text.
pub const STATUS_X_MARGIN: i32 = 20;

/// Message that asks the splash window to close once the progress is shown complete.
pub const MSG_CLOSE: i16 = -1;

/// Message for progress of unknown extent; the bar keeps its value.
pub const MSG_INDEFINITE: i16 = -2;

/// Stands for "no message waiting" when the queue is drained.
pub const MSG_NOMESSAGE: i16 = -99;

/// Timer ticks the window waits, once the bar shows 100%, before it closes.
pub const CLOSE_DELAY_TICKS: i32 = 20;

/// The splash window's measures in pixels, already scaled to the window's DPI.
#[derive(Debug, Clone, Copy, PartialEq, Eq, Structural)]
pub struct SplashMetrics {
    pub logo_size: i32,
    pub logo_top: i32,
    pub close_size: i32,
    pub close_offset: i32,
    pub title_y: i32,
    pub title_h: i32,
    pub status_y: i32,
    pub status_h: i32,
}

/// Where the splash window draws its logo, close button and texts.
#[derive(Debug, Clone, Copy, PartialEq, Eq, Structural)]
pub struct SplashLayout {
    pub logo_x: i32,
    pub logo_y: i32,
    pub logo_size: i32,
    pub close_rect: Rect,
    pub title_rect: Rect,
    pub status_rect: Rect,
}

/// The close button, `size` pixels square, `offset` pixels from the top right corner.
pub open spec fn close_rect_of(width: int, size: int, offset: int) -> Rect {
    Rect {
        left: (width - size - offset) as i32,
        top: offset as i32,
        right: (width - offset) as i32,
        bottom: (size + offset) as i32,
    }
}

/// The close button of a window `width` pixels wide.
pub fn close_button_rect(width: i32, size: i32, offset: i32) -> (res: Rect)
    requires
        fits_i32(width - size),
        fits_i32(width - size - offset),
        fits_i32(width - offset),
        fits_i32(size + offset),
    ensures
        res == close_rect_of(width as int, size as int, offset as int),
{
    Rect { left: width - size - offset, top: offset, right: width - offset, bottom: size + offset }
}

/// Every value `compute_layout` computes fits an `i32`.
pub open spec fn splash_layout_fits(width: int, m: SplashMetrics) -> bool {
    &&& fits_i32(width - m.logo_size)
    &&& fits_i32(width - m.close_size)
    &&& fits_i32(width - m.close_size - m.close_offset)
    &&& fits_i32(width - m.close_offset)
    &&& fits_i32(m.close_size + m.close_offset)
    &&& fits_i32(m.title_y + m.title_h)
    &&& fits_i32(width - STATUS_X_MARGIN)
    &&& fits_i32(m.status_y + m.status_h)
}

/// Lays the splash window out: logo centred, close button top right, title across the whole
/// width, status text within its side margins.
pub fn compute_layout(width: i32, m: &SplashMetrics) -> (res: SplashLayout)
    requires
        splash_layout_fits(width as int, *m),
    ensures
        res.logo_size == m.logo_size,
        res.logo_x == half_toward_zero(width - m.logo_size),
        res.logo_y == m.logo_top,
        res.close_rect == close_rect_of(width as int, m.close_size as int, m.close_offset as int),
        res.title_rect == (Rect {
            left: 0,
            top: m.title_y,
            right: width,
            bottom: (m.title_y + m.title_h) as i32,
        }),
        res.status_rect == (Rect {
            left: STATUS_X_MARGIN,
            top: m.status_y,
            right: (width - STATUS_X_MARGIN) as i32,
            bottom: (m.status_y + m.status_h) as i32,
        }),
{
    let logo_size = m.logo_size;
    let logo_x = (width - logo_size) / 2;
    let close_rect = close_button_rect(width, m.close_size, m.close_offset);
    SplashLayout {
        logo_x,
        logo_y: m.logo_top,
        logo_size,
        close_rect,
        title_rect: Rect { left: 0, top: m.title_y, right: width, bottom: m.title_y + m.title_h },
        status_rect: Rect {
            left: STATUS_X_MARGIN,
            top: m.status_y,
            right: width - STATUS_X_MARGIN,
            bottom: m.status_y + m.status_h,
        },
    }
}

/// The close button is client area; the rest of the splash window drags it.
pub fn splash_hit_test(close_rect: &Rect, pt: Point) -> (res: HitArea)
    ensures
        res == (if point_in_rect(*close_rect, pt) {
            HitArea::Client
        } else {
            HitArea::Caption
        }),
{
    if rect_contains(close_rect, pt) {
        HitArea::Client
    } else {
        HitArea::Caption
    }
}

/// The area repainted when the close button's hover state changes: the button grown by two
/// pixels, up to the right edge of the window.
pub fn hover_repaint_rect(close_rect: &Rect, width: i32) -> (res: Rect)
    requires
        fits_i32(close_rect.left - 2),
        fits_i32(close_rect.top - 2),
        fits_i32(close_rect.bottom + 2),
    ensures
        res == (Rect {
            left: (close_rect.left - 2) as i32,
            top: (close_rect.top - 2) as i32,
            right: width,
            bottom: (close_rect.bottom + 2) as i32,
        }),
{
    Rect {
        left: close_rect.left - 2,
        top: close_rect.top - 2,
        right: width,
        bottom: close_rect.bottom + 2,
    }
}

/// The colours the splash window is drawn with. Fills are ARGB; text colours are RGB.
#[derive(Debug, Clone, Copy, PartialEq, Eq, Structural)]
pub struct SplashColors {
    pub background: u32,
    pub title_text: Rgb,
    pub status_text: Rgb,
    pub close_hover_bg: u32,
    pub close_icon: u32,
    pub close_icon_hover: u32,
    pub progress_bg: u32,
    pub progress_fill: u32,
}

/// The splash palette of each theme.
pub open spec fn splash_palette(theme: ThemeMode) -> SplashColors {
    match theme {
        ThemeMode::Dark => SplashColors {
            background: 0xFF202020,
            title_text: rgb(255, 255, 255),
            status_text: rgb(180, 180, 180),
            close_hover_bg: 0x33FFFFFF,
            close_icon: 0xFFA0A0A0,
            close_icon_hover: 0xFFFFFFFF,
            progress_bg: 0xFF404040,
            progress_fill: 0xFF0078D4,
        },
        ThemeMode::Light => SplashColors {
            background: 0xFFF6F6F6,
            title_text: rgb(30, 30, 30),
            status_text: rgb(90, 90, 90),
            close_hover_bg: 0x14000000,
            close_icon: 0xFF666666,
            close_icon_hover: 0xFF000000,
            progress_bg: 0xFFDDDDDD,
            progress_fill: 0xFF0078D4,
        },
    }
}

/// The splash palette of a theme.
pub fn theme_colors(theme: ThemeMode) -> (res: SplashColors)
    ensures
        res == splash_palette(theme),
{
    match theme {
        ThemeMode::Dark => SplashColors {
            background: 0xFF202020,
            title_text: Rgb { r: 255, g: 255, b: 255 },
            status_text: Rgb { r: 180, g: 180, b: 180 },
            close_hover_bg: 0x33FFFFFF,
            close_icon: 0xFFA0A0A0,
            close_icon_hover: 0xFFFFFFFF,
            progress_bg: 0xFF404040,
            progress_fill: 0xFF0078D4,
        },
        ThemeMode::Light => SplashColors {
            background: 0xFFF6F6F6,
            title_text: Rgb { r: 30, g: 30, b: 30 },
            status_text: Rgb { r: 90, g: 90, b: 90 },
            close_hover_bg: 0x14000000,
            close_icon: 0xFF666666,
            close_icon_hover: 0xFF000000,
            progress_bg: 0xFFDDDDDD,
            progress_fill: 0xFF0078D4,
        },
    }
}

/// The progress the splash window has been told: the target percentage, whether it was asked
/// to close, and the ticks left before it closes once complete.
pub struct SplashProgress {
    target: i16,
    should_close: bool,
    close_delay_ticks: i32,
}

impl SplashProgress {
    pub closed spec fn target_value(&self) -> i16 {
        self.target
    }

    pub closed spec fn close_requested(&self) -> bool {
        self.should_close
    }

    pub closed spec fn delay_left(&self) -> i32 {
        self.close_delay_ticks
    }

    /// The target is never negative and the delay stays within its initial value.
    pub open spec fn wf(&self) -> bool {
        &&& self.target_value() >= 0
        &&& 0 <= self.delay_left() <= CLOSE_DELAY_TICKS
    }

    /// At 0%, not asked to close, with the full close delay ahead.
    pub fn new() -> (res: Self)
        ensures
            res.wf(),
            res.target_value() == 0,
            !res.close_requested(),
            res.delay_left() == CLOSE_DELAY_TICKS,
    {
        SplashProgress { target: 0, should_close: false, close_delay_ticks: CLOSE_DELAY_TICKS }
    }

    /// The progress, in percent, the bar moves to.
    pub fn target(&self) -> (res: i16)
        ensures
            res == self.target_value(),
    {
        self.target
    }

    /// Takes one message off the queue. `MSG_NOMESSAGE` ends the draining and changes nothing;
    /// `MSG_CLOSE` asks the window to close; a percentage (zero or more) becomes the target;
    /// any other value is ignored. Returns whether to keep draining.
    pub fn apply_message(&mut self, msg: i16) -> (keep_draining: bool)
        requires
            old(self).wf(),
        ensures
            final(self).wf(),
            keep_draining == (msg != MSG_NOMESSAGE),
            final(self).target_value() == (if msg != MSG_NOMESSAGE && msg != MSG_CLOSE && msg >= 0 {
                msg
            } else {
                old(self).target_value()
            }),
            final(self).close_requested() == (old(self).close_requested() || msg == MSG_CLOSE),
            final(self).delay_left() == old(self).delay_left(),
    {
        if msg == MSG_NOMESSAGE {
            return false;
        } else if msg == MSG_CLOSE {
            self.should_close = true;
        } else if msg >= 0 {
            self.target = msg;
        }
        true
    }

    /// One timer tick of closing. `visual_complete` says the bar shows at least 99.9%;
    /// `visual_near_target` says it is within one point of the target. Once asked to close,
    /// at a target of 100% the window waits out the delay then closes; below 100% it closes
    /// as soon as the bar has caught up. Returns whether to close the window now.
    pub fn close_tick(&mut self, visual_complete: bool, visual_near_target: bool) -> (close: bool)
        requires
            old(self).wf(),
        ensures
            final(self).wf(),
            final(self).target_value() == old(self).target_value(),
            final(self).close_requested() == old(self).close_requested(),
            close == (old(self).close_requested() && if old(self).target_value() >= 100 {
                visual_complete && old(self).delay_left() <= 0
            } else {
                visual_near_target
            }),
            final(self).delay_left() == (if old(self).close_requested() && old(self).target_value()
                >= 100 && visual_complete && old(self).delay_left() > 0 {
                old(self).delay_left() - 1
            } else {
                old(self).delay_left() as int
            }),
    {
        if self.should_close {
            if self.target >= 100 && visual_complete {
                if self.close_delay_ticks <= 0 {
                    return true;
                } else {
                    self.close_delay_ticks = self.close_delay_ticks - 1;
                }
            } else if self.target < 100 && visual_near_target {
                return true;
            }
        }
        false
    }
}

/// Whether the splash window's close button is drawn hovered.
pub struct CloseHover {
    pub hovered: bool,
}

impl CloseHover {
    /// The cursor moved; it is over the close button when `is_in`. Returns whether the hover
    /// state changed (and the button is to be repainted).
    pub fn mouse_move(&mut self, is_in: bool) -> (changed: bool)
        ensures
            final(self).hovered == is_in,
            changed == (old(self).hovered != is_in),
    {
        let changed = self.hovered != is_in;
        if changed {
            self.hovered = is_in;
        }
        changed
    }

    /// The cursor left the window. Returns whether the button is to be repainted (it was
    /// hovered).
    pub fn mouse_leave(&mut self) -> (changed: bool)
        ensures
            !final(self).hovered,
            changed == old(self).hovered,
    {
        let changed = self.hovered;
        self.hovered = false;
        changed
    }
}

/// The splash layout as `compute_layout` builds it, or `None` where a value would not fit an
/// `i32`.
pub fn try_compute_layout(width: i32, m: &SplashMetrics) -> (res: Option<SplashLayout>)
    ensures
        res is Some <==> splash_layout_fits(width as int, *m),
        res matches Some(l) ==> {
            &&& l.logo_size == m.logo_size
            &&& l.logo_x == half_toward_zero(width - m.logo_size)
            &&& l.logo_y == m.logo_top
            &&& l.close_rect == close_rect_of(width as int, m.close_size as int, m.close_offset as int)
            &&& l.title_rect == (Rect {
                left: 0,
                top: m.title_y,
                right: width,
                bottom: (m.title_y + m.title_h) as i32,
            })
            &&& l.status_rect == (Rect {
                left: STATUS_X_MARGIN,
                top: m.status_y,
                right: (width - STATUS_X_MARGIN) as i32,
                bottom: (m.status_y + m.status_h) as i32,
            })
        },
{
    let w = width as i64;
    let fits = close_rect_in_range(width, m.close_size, m.close_offset) && in_i32(w
        - m.logo_size as i64) && in_i32(m.title_y as i64 + m.title_h as i64) && in_i32(
        w - STATUS_X_MARGIN as i64,
    ) && in_i32(m.status_y as i64 + m.status_h as i64);
    if fits {
        Some(compute_layout(width, m))
    } else {
        None
    }
}

fn in_i32(x: i64) -> (res: bool)
    ensures
        res == fits_i32(x as int),
{
    -2147483648i64 <= x && x <= 2147483647i64
}

/// Whether `close_button_rect` can place the close button (every value fits an `i32`).
pub fn close_rect_in_range(width: i32, size: i32, offset: i32) -> (res: bool)
    ensures
        res == (fits_i32(width - size) && fits_i32(width - size - offset) && fits_i32(
            width - offset,
        ) && fits_i32(size + offset)),
{
    let w = width as i64;
    let sz = size as i64;
    let off = offset as i64;
    in_i32(w - sz) && in_i32(w - sz - off) && in_i32(w - off) && in_i32(sz + off)
}

/// The splash window's title and status text can be read on its background: darker than it in
/// the light theme, lighter in the dark theme, and by a clear margin.
pub proof fn lemma_splash_text_readable(theme: ThemeMode)
    ensures
        ({
            let c = splash_palette(theme);
            &&& readable_on(c.title_text, c.background) && follows_theme(theme, c.title_text, c.background)
            &&& readable_on(c.status_text, c.background) && follows_theme(theme, c.status_text, c.background)
        }),
{
}

} // verus!
