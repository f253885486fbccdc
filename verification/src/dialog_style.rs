use vstd::prelude::*;

use crate::theme::{follows_theme, readable_on, rgb, Rgb, ThemeMode};

verus! {

/// The colours a dialog is drawn with. Fills are ARGB; text colours are RGB.
#[derive(Debug, Clone, Copy, PartialEq, Eq, Structural)]
pub struct ThemeColors {
    pub background: u32,
    pub title_text: Rgb,
    pub header_text: Rgb,
    pub body_text: Rgb,
    pub footer_text: Rgb,
    pub footer_link: Rgb,
    pub close_hover_bg: u32,
    pub close_icon: u32,
    pub close_icon_hover: u32,
    pub button_primary: u32,
    pub button_primary_hover: u32,
    pub button_secondary: u32,
    pub button_secondary_hover: u32,
}

/// The dialog palette of each theme.
pub open spec fn palette(theme: ThemeMode) -> ThemeColors {
    match theme {
        ThemeMode::Dark => ThemeColors {
            background: 0xFF202020,
            title_text: rgb(200, 200, 200),
            header_text: rgb(255, 255, 255),
            body_text: rgb(180, 180, 180),
            footer_text: rgb(160, 160, 160),
            footer_link: rgb(0, 120, 212),
            close_hover_bg: 0x33FFFFFF,
            close_icon: 0xFFA0A0A0,
            close_icon_hover: 0xFFFFFFFF,
            button_primary: 0xFF0078D4,
            button_primary_hover: 0xFF1E88E5,
            button_secondary: 0xFF303030,
            button_secondary_hover: 0xFF3A3A3A,
        },
        ThemeMode::Light => ThemeColors {
            background: 0xFFF6F6F6,
            title_text: rgb(80, 80, 80),
            header_text: rgb(20, 20, 20),
            body_text: rgb(70, 70, 70),
            footer_text: rgb(120, 120, 120),
            footer_link: rgb(0, 120, 212),
            close_hover_bg: 0x14000000,
            close_icon: 0xFF666666,
            close_icon_hover: 0xFF000000,
            button_primary: 0xFF0078D4,
            button_primary_hover: 0xFF1E88E5,
            button_secondary: 0xFFE6E6E6,
            button_secondary_hover: 0xFFDCDCDC,
        },
    }
}

/// The dialog palette of a theme.
pub fn theme_colors(theme: ThemeMode) -> (res: ThemeColors)
    ensures
        res == palette(theme),
{
    match theme {
        ThemeMode::Dark => ThemeColors {
            background: 0xFF202020,
            title_text: Rgb { r: 200, g: 200, b: 200 },
            header_text: Rgb { r: 255, g: 255, b: 255 },
            body_text: Rgb { r: 180, g: 180, b: 180 },
            footer_text: Rgb { r: 160, g: 160, b: 160 },
            footer_link: Rgb { r: 0, g: 120, b: 212 },
            close_hover_bg: 0x33FFFFFF,
            close_icon: 0xFFA0A0A0,
            close_icon_hover: 0xFFFFFFFF,
            button_primary: 0xFF0078D4,
            button_primary_hover: 0xFF1E88E5,
            button_secondary: 0xFF303030,
            button_secondary_hover: 0xFF3A3A3A,
        },
        ThemeMode::Light => ThemeColors {
            background: 0xFFF6F6F6,
            title_text: Rgb { r: 80, g: 80, b: 80 },
            header_text: Rgb { r: 20, g: 20, b: 20 },
            body_text: Rgb { r: 70, g: 70, b: 70 },
            footer_text: Rgb { r: 120, g: 120, b: 120 },
            footer_link: Rgb { r: 0, g: 120, b: 212 },
            close_hover_bg: 0x14000000,
            close_icon: 0xFF666666,
            close_icon_hover: 0xFF000000,
            button_primary: 0xFF0078D4,
            button_primary_hover: 0xFF1E88E5,
            button_secondary: 0xFFE6E6E6,
            button_secondary_hover: 0xFFDCDCDC,
        },
    }
}

/// Text colour of a button's main line (`is_sub` false) or sub line (`is_sub` true).
pub open spec fn button_text_rgb(theme: ThemeMode, is_primary: bool, is_sub: bool) -> Rgb {
    match theme {
        ThemeMode::Dark => if is_sub {
            rgb(200, 200, 200)
        } else {
            rgb(255, 255, 255)
        },
        ThemeMode::Light => if is_primary {
            rgb(255, 255, 255)
        } else if is_sub {
            rgb(110, 110, 110)
        } else {
            rgb(30, 30, 30)
        },
    }
}

/// Text colour of a button's main line or sub line.
pub fn button_text_color(theme: ThemeMode, is_primary: bool, is_sub: bool) -> (res: Rgb)
    ensures
        res == button_text_rgb(theme, is_primary, is_sub),
{
    match theme {
        ThemeMode::Dark => {
            if is_sub {
                Rgb { r: 200, g: 200, b: 200 }
            } else {
                Rgb { r: 255, g: 255, b: 255 }
            }
        },
        ThemeMode::Light => {
            if is_primary {
                Rgb { r: 255, g: 255, b: 255 }
            } else if is_sub {
                Rgb { r: 110, g: 110, b: 110 }
            } else {
                Rgb { r: 30, g: 30, b: 30 }
            }
        },
    }
}

/// Fill colour of a button: primary or secondary, lighter when hovered.
pub fn button_fill_color(colors: &ThemeColors, is_primary: bool, is_hover: bool) -> (res: u32)
    ensures
        res == (if is_primary {
            if is_hover {
                colors.button_primary_hover
            } else {
                colors.button_primary
            }
        } else {
            if is_hover {
                colors.button_secondary_hover
            } else {
                colors.button_secondary
            }
        }),
{
    let base_color = if is_primary {
        colors.button_primary
    } else {
        colors.button_secondary
    };
    let hover_color = if is_primary {
        colors.button_primary_hover
    } else {
        colors.button_secondary_hover
    };
    if is_hover {
        hover_color
    } else {
        base_color
    }
}

/// Footer text is drawn in the link colour when it links somewhere.
pub fn footer_color(colors: &ThemeColors, has_link: bool) -> (res: Rgb)
    ensures
        res == (if has_link {
            colors.footer_link
        } else {
            colors.footer_text
        }),
{
    if has_link {
        colors.footer_link
    } else {
        colors.footer_text
    }
}

/// Every text of a dialog can be read on its background: darker than it in the light theme,
/// lighter in the dark theme, and by a clear margin.
pub proof fn lemma_dialog_text_readable(theme: ThemeMode)
    ensures
        ({
            let c = palette(theme);
            &&& readable_on(c.title_text, c.background) && follows_theme(theme, c.title_text, c.background)
            &&& readable_on(c.header_text, c.background) && follows_theme(theme, c.header_text, c.background)
            &&& readable_on(c.body_text, c.background) && follows_theme(theme, c.body_text, c.background)
            &&& readable_on(c.footer_text, c.background) && follows_theme(theme, c.footer_text, c.background)
            &&& readable_on(c.footer_link, c.background) && follows_theme(theme, c.footer_link, c.background)
        }),
{
}

/// A button's label, main line or sub line, can be read on the button's fill, hovered or not;
/// in the dark theme its colour depends only on which line it is, not on the button's kind.
pub proof fn lemma_button_text_readable(theme: ThemeMode, is_primary: bool, is_sub: bool, is_hover: bool)
    ensures
        readable_on(
            button_text_rgb(theme, is_primary, is_sub),
            ({
                let c = palette(theme);
                if is_primary {
                    if is_hover {
                        c.button_primary_hover
                    } else {
                        c.button_primary
                    }
                } else {
                    if is_hover {
                        c.button_secondary_hover
                    } else {
                        c.button_secondary
                    }
                }
            }),
        ),
        theme == ThemeMode::Dark ==> button_text_rgb(theme, is_primary, is_sub) == button_text_rgb(
            theme,
            !is_primary,
            is_sub,
        ),
{
}

} // verus!
