use vstd::prelude::*;

verus! {

/// The colour scheme a window is drawn with.
#[derive(Debug, Clone, Copy, PartialEq, Eq, Structural)]
pub enum ThemeMode {
    Dark,
    Light,
}

/// An RGB text colour, as a GDI `COLORREF` is built from three channels.
#[derive(Debug, Clone, Copy, PartialEq, Eq, Structural)]
pub struct Rgb {
    pub r: u8,
    pub g: u8,
    pub b: u8,
}

/// Builds an RGB colour.
pub open spec fn rgb(r: u8, g: u8, b: u8) -> Rgb {
    Rgb { r, g, b }
}

/// What `char::to_ascii_lowercase` does to one character.
pub open spec fn ascii_lower(c: char) -> char {
    if 'A' <= c <= 'Z' {
        ((c as u32) + 32) as char
    } else {
        c
    }
}

/// The characters of `dark`.
pub open spec fn dark_word() -> Seq<char> {
    seq!['d', 'a', 'r', 'k']
}

/// The characters of `light`.
pub open spec fn light_word() -> Seq<char> {
    seq!['l', 'i', 'g', 'h', 't']
}

/// `s` equals `word` once its ASCII letters are lowered.
pub open spec fn matches_ignoring_ascii_case(s: Seq<char>, word: Seq<char>) -> bool {
    s.len() == word.len() && forall|i: int| 0 <= i < s.len() ==> ascii_lower(#[trigger] s[i]) == word[i]
}

/// The theme named by `s`, compared without regard to ASCII case.
pub open spec fn theme_named(s: Seq<char>) -> Option<ThemeMode> {
    if matches_ignoring_ascii_case(s, dark_word()) {
        Some(ThemeMode::Dark)
    } else if matches_ignoring_ascii_case(s, light_word()) {
        Some(ThemeMode::Light)
    } else {
        None
    }
}

/// The system theme given the registry value `AppsUseLightTheme`, when it could be read.
pub open spec fn registry_theme(value: Option<u32>) -> ThemeMode {
    match value {
        Some(v) => if v == 0 {
            ThemeMode::Dark
        } else {
            ThemeMode::Light
        },
        None => ThemeMode::Light,
    }
}

/// Whether `c`, lowered as ASCII, is the lowercase letter `lower`.
fn char_matches_lower(c: char, lower: char) -> (res: bool)
    requires
        'a' <= lower <= 'z',
    ensures
        res == (ascii_lower(c) == lower),
{
    let cu = c as u32;
    let lu = lower as u32;
    cu == lu || cu + 32 == lu
}

/// Compares `s` to the lowercase ASCII word `word` without regard to ASCII case.
fn eq_ignore_ascii_case(s: &str, word: &str) -> (res: bool)
    requires
        forall|i: int| 0 <= i < word@.len() ==> 'a' <= #[trigger] word@[i] <= 'z',
    ensures
        res == matches_ignoring_ascii_case(s@, word@),
{
    let n = s.unicode_len();
    let m = word.unicode_len();
    if n != m {
        return false;
    }
    let mut i: usize = 0;
    while i < n
        invariant
            n == s@.len(),
            m == word@.len(),
            n == m,
            i <= n,
            forall|j: int| 0 <= j < word@.len() ==> 'a' <= #[trigger] word@[j] <= 'z',
            forall|j: int| 0 <= j < i ==> ascii_lower(#[trigger] s@[j]) == word@[j],
        decreases n - i,
    {
        let c = s.get_char(i);
        let w = word.get_char(i);
        if !char_matches_lower(c, w) {
            return false;
        }
        i = i + 1;
    }
    true
}

/// Reads a theme name, `dark` or `light` in any ASCII case.
pub fn parse_theme_name(value: &str) -> (res: Option<ThemeMode>)
    ensures
        res == theme_named(value@),
{
    let dark = "dark";
    let light = "light";
    proof {
        reveal_strlit("dark");
        reveal_strlit("light");
        assert(dark@ == dark_word());
        assert(light@ == light_word());
    }
    if eq_ignore_ascii_case(value, dark) {
        Some(ThemeMode::Dark)
    } else if eq_ignore_ascii_case(value, light) {
        Some(ThemeMode::Light)
    } else {
        None
    }
}

/// The system theme from the registry value `AppsUseLightTheme`: `0` is dark, anything
/// else, or no value, is light.
pub fn read_system_theme(registry_value: Option<u32>) -> (res: ThemeMode)
    ensures
        res == registry_theme(registry_value),
{
    match registry_value {
        Some(0) => ThemeMode::Dark,
        Some(1) => ThemeMode::Light,
        _ => ThemeMode::Light,
    }
}

/// The theme windows are drawn with: the override when one is set, else the system theme.
pub fn resolve_theme(theme_override: Option<ThemeMode>, registry_value: Option<u32>) -> (res:
    ThemeMode)
    ensures
        res == (match theme_override {
            Some(t) => t,
            None => registry_theme(registry_value),
        }),
{
    match theme_override {
        Some(t) => t,
        None => read_system_theme(registry_value),
    }
}

/// The theme override shared by all windows of the process.
pub struct ThemeOverride {
    theme: Option<ThemeMode>,
}

impl ThemeOverride {
    /// The override currently set.
    pub closed spec fn value(&self) -> Option<ThemeMode> {
        self.theme
    }

    /// No override: windows follow the system theme.
    pub fn new() -> (res: Self)
        ensures
            res.value() is None,
    {
        ThemeOverride { theme: None }
    }

    /// The override currently set.
    pub fn get(&self) -> (res: Option<ThemeMode>)
        ensures
            res == self.value(),
    {
        self.theme
    }

    /// Sets, or with `None` clears, the override.
    pub fn set_theme_override(&mut self, theme: Option<ThemeMode>)
        ensures
            final(self).value() == theme,
    {
        self.theme = theme;
    }

    /// Sets the override from its name: `None` clears it, `dark` and `light` (any ASCII case)
    /// set it; any other name is refused, leaving the override as it was.
    pub fn set_theme_override_from_str(&mut self, theme: Option<&str>) -> (accepted: bool)
        ensures
            accepted == (match theme {
                None => true,
                Some(v) => theme_named(v@) is Some,
            }),
            final(self).value() == override_after_name(
                old(self).value(),
                match theme {
                    None => None,
                    Some(v) => Some(v@),
                },
            ),
    {
        match theme {
            None => {
                self.set_theme_override(None);
                true
            },
            Some(value) => match parse_theme_name(value) {
                Some(t) => {
                    self.set_theme_override(Some(t));
                    true
                },
                None => false,
            },
        }
    }

    /// The theme windows are drawn with, given the system's registry value.
    pub fn current_theme(&self, registry_value: Option<u32>) -> (res: ThemeMode)
        ensures
            res == shown_theme(self.value(), registry_value),
    {
        resolve_theme(self.theme, registry_value)
    }
}

/// Colour of the close button's cross: the hover colour while the cursor is over it.
pub fn close_icon_color(is_hover: bool, icon: u32, icon_hover: u32) -> (res: u32)
    ensures
        res == (if is_hover {
            icon_hover
        } else {
            icon
        }),
{
    if is_hover {
        icon_hover
    } else {
        icon
    }
}

/// Theme names ignore ASCII case: two names that agree once lowered name the same theme.
pub proof fn lemma_theme_name_ignores_case(a: Seq<char>, b: Seq<char>)
    requires
        a.len() == b.len(),
        forall|i: int| 0 <= i < a.len() ==> ascii_lower(#[trigger] a[i]) == ascii_lower(b[i]),
    ensures
        theme_named(a) == theme_named(b),
{
    assert(matches_ignoring_ascii_case(a, dark_word()) == matches_ignoring_ascii_case(
        b,
        dark_word(),
    )) by {
        if matches_ignoring_ascii_case(a, dark_word()) {
            assert forall|i: int| 0 <= i < b.len() implies ascii_lower(#[trigger] b[i])
                == dark_word()[i] by {
                assert(ascii_lower(a[i]) == ascii_lower(b[i]));
            }
        }
        if matches_ignoring_ascii_case(b, dark_word()) {
            assert forall|i: int| 0 <= i < a.len() implies ascii_lower(#[trigger] a[i])
                == dark_word()[i] by {
                assert(ascii_lower(a[i]) == ascii_lower(b[i]));
            }
        }
    }
    assert(matches_ignoring_ascii_case(a, light_word()) == matches_ignoring_ascii_case(
        b,
        light_word(),
    )) by {
        if matches_ignoring_ascii_case(a, light_word()) {
            assert forall|i: int| 0 <= i < b.len() implies ascii_lower(#[trigger] b[i])
                == light_word()[i] by {
                assert(ascii_lower(a[i]) == ascii_lower(b[i]));
            }
        }
        if matches_ignoring_ascii_case(b, light_word()) {
            assert forall|i: int| 0 <= i < a.len() implies ascii_lower(#[trigger] a[i])
                == light_word()[i] by {
                assert(ascii_lower(a[i]) == ascii_lower(b[i]));
            }
        }
    }
}

/// What a theme name given to `set_theme_override_from_str` reads as: `None` clears the
/// override, a known name sets it, any other name leaves `before` as it was.
pub open spec fn override_after_name(before: Option<ThemeMode>, name: Option<Seq<char>>) -> Option<
    ThemeMode,
> {
    match name {
        None => None,
        Some(v) => if theme_named(v) is Some {
            theme_named(v)
        } else {
            before
        },
    }
}

/// The theme windows are drawn with under an override, given the registry value.
pub open spec fn shown_theme(theme_override: Option<ThemeMode>, registry_value: Option<u32>) -> ThemeMode {
    match theme_override {
        Some(t) => t,
        None => registry_theme(registry_value),
    }
}

/// After a theme name is accepted, windows are drawn in the named theme whatever the system
/// uses; a refused name changes nothing that is shown; clearing the override gives the system
/// theme back.
pub proof fn lemma_theme_name_decides(
    before: Option<ThemeMode>,
    name: Seq<char>,
    registry_value: Option<u32>,
)
    ensures
        theme_named(name) matches Some(t) ==> shown_theme(
            override_after_name(before, Some(name)),
            registry_value,
        ) == t,
        theme_named(name) is None ==> shown_theme(
            override_after_name(before, Some(name)),
            registry_value,
        ) == shown_theme(before, registry_value),
        shown_theme(override_after_name(before, None), registry_value) == registry_theme(
            registry_value,
        ),
{
}

/// Sum of the three channels of an RGB colour: its brightness, from 0 to 765.
pub open spec fn rgb_brightness(c: Rgb) -> int {
    c.r + c.g + c.b
}

/// Sum of the red, green and blue channels of an ARGB fill colour.
pub open spec fn argb_brightness(c: u32) -> int {
    (c / 0x10000) % 0x100 + (c / 0x100) % 0x100 + c % 0x100
}

/// Text of colour `text` can be read on `fill`: their brightness differs by at least a quarter
/// of the full range.
pub open spec fn readable_on(text: Rgb, fill: u32) -> bool {
    rgb_brightness(text) >= argb_brightness(fill) + 192 || rgb_brightness(text) + 192
        <= argb_brightness(fill)
}

/// In the light theme text is darker than the background it stands on; in the dark theme,
/// lighter.
pub open spec fn follows_theme(theme: ThemeMode, text: Rgb, background: u32) -> bool {
    match theme {
        ThemeMode::Light => rgb_brightness(text) < argb_brightness(background),
        ThemeMode::Dark => rgb_brightness(text) > argb_brightness(background),
    }
}

} // verus!
