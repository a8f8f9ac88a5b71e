//! Color themes: a theme as it is stored, and the theme that the interface
//! uses, in which the colors of the focus round's gradient are filled in.

use crate::session::text_view;
use crate::text::{hex_byte, hex_byte_text};
use hex_color::HexColor;
use vstd::prelude::*;
use vstd::string::{is_ascii, StringExecFns};

verus! {

/// The red, green and blue parts of a color.
#[derive(Clone, Copy, Debug, PartialEq, Eq, Structural)]
pub struct Rgb {
    pub r: u8,
    pub g: u8,
    pub b: u8,
}

/// The color that `HexColor::parse` reads from a text, without its alpha
/// part, where it reads one.
pub uninterp spec fn hex_color_of(text: Seq<char>) -> Option<Rgb>;

/// `HexColor::parse`: reads a color written as `#RGB`, `#RRGGBB`, `#RGBA`
/// or `#RRGGBBAA`. The result is a function of the text alone, named
/// [`hex_color_of`]; a text that is no color gives nothing. The text has to
/// be ASCII, since the crate reads it byte by byte.
#[verifier::external_body]
fn parse_hex_color(text: &str) -> (color: Option<Rgb>)
    requires
        is_ascii(text),
    ensures
        color == hex_color_of(text@),
{
    match HexColor::parse(text) {
        Ok(color) => Some(Rgb { r: color.r, g: color.g, b: color.b }),
        Err(_) => None,
    }
}

/// The color that a text stands for: none where the text is not ASCII.
pub open spec fn color_of(text: Seq<char>) -> Option<Rgb> {
    if vstd::utf8::is_ascii_chars(text) {
        hex_color_of(text)
    } else {
        None
    }
}

/// Reads a color from a text.
pub fn read_color(text: &str) -> (color: Option<Rgb>)
    ensures
        color == color_of(text@),
{
    if text.is_ascii() {
        parse_hex_color(text)
    } else {
        None
    }
}

/// The value half-way between two color parts, rounded up.
pub open spec fn midpoint(a: u8, b: u8) -> u8 {
    ((a + b + 1) / 2) as u8
}

/// The color half-way between two colors, part by part.
pub open spec fn middle_of(first: Rgb, second: Rgb) -> Rgb {
    Rgb {
        r: midpoint(first.r, second.r),
        g: midpoint(first.g, second.g),
        b: midpoint(first.b, second.b),
    }
}

/// A color as a text: `#`, then two capital digits in base 16 for each of
/// red, green and blue.
pub open spec fn color_text(color: Rgb) -> Seq<char> {
    seq!['#'] + hex_byte(color.r) + hex_byte(color.g) + hex_byte(color.b)
}

/// The color half-way between two colors.
pub fn middle_color(first: Rgb, second: Rgb) -> (middle: Rgb)
    ensures
        middle == middle_of(first, second),
{
    let r: u16 = (first.r as u16 + second.r as u16 + 1) / 2;
    let g: u16 = (first.g as u16 + second.g as u16 + 1) / 2;
    let b: u16 = (first.b as u16 + second.b as u16 + 1) / 2;
    Rgb { r: r as u8, g: g as u8, b: b as u8 }
}

/// A color as a text.
pub fn color_to_text(color: Rgb) -> (text: String)
    ensures
        text@ == color_text(color),
{
    proof {
        reveal_strlit("#");
    }
    let text = String::from_str("#").concat(hex_byte_text(color.r).as_str()).concat(
        hex_byte_text(color.g).as_str(),
    ).concat(hex_byte_text(color.b).as_str());
    assert(text@ =~= color_text(color));
    text
}

/// The colors of a theme as the interface uses them.
#[derive(Debug, PartialEq)]
pub struct Colors {
    pub accent: String,
    pub background: String,
    pub background_light: String,
    pub background_lightest: String,
    pub focus_round: String,
    pub focus_round_middle: String,
    pub focus_round_end: String,
    pub foreground: String,
    pub foreground_darker: String,
    pub foreground_darkest: String,
    pub long_round: String,
    pub short_round: String,
}

/// A theme as the interface uses it.
#[derive(Debug, PartialEq)]
pub struct Theme {
    pub colors: Colors,
    pub name: String,
}

/// The colors of a theme as they are stored: the two further colors of
/// the focus round's gradient may be missing.
#[derive(Debug, PartialEq)]
pub struct JsonColors {
    pub accent: String,
    pub background: String,
    pub background_light: String,
    pub background_lightest: String,
    pub focus_round: String,
    pub focus_round_middle: Option<String>,
    pub focus_round_end: Option<String>,
    pub foreground: String,
    pub foreground_darker: String,
    pub foreground_darkest: String,
    pub long_round: String,
    pub short_round: String,
}

/// A theme as it is stored.
#[derive(Debug, PartialEq)]
pub struct JsonTheme {
    pub colors: JsonColors,
    pub name: String,
}

/// The mathematical value of a [`Colors`].
pub struct ColorsView {
    pub accent: Seq<char>,
    pub background: Seq<char>,
    pub background_light: Seq<char>,
    pub background_lightest: Seq<char>,
    pub focus_round: Seq<char>,
    pub focus_round_middle: Seq<char>,
    pub focus_round_end: Seq<char>,
    pub foreground: Seq<char>,
    pub foreground_darker: Seq<char>,
    pub foreground_darkest: Seq<char>,
    pub long_round: Seq<char>,
    pub short_round: Seq<char>,
}

/// The mathematical value of a [`Theme`].
pub struct ThemeView {
    pub colors: ColorsView,
    pub name: Seq<char>,
}

/// The mathematical value of a [`JsonColors`].
pub struct JsonColorsView {
    pub accent: Seq<char>,
    pub background: Seq<char>,
    pub background_light: Seq<char>,
    pub background_lightest: Seq<char>,
    pub focus_round: Seq<char>,
    pub focus_round_middle: Option<Seq<char>>,
    pub focus_round_end: Option<Seq<char>>,
    pub foreground: Seq<char>,
    pub foreground_darker: Seq<char>,
    pub foreground_darkest: Seq<char>,
    pub long_round: Seq<char>,
    pub short_round: Seq<char>,
}

/// The mathematical value of a [`JsonTheme`].
pub struct JsonThemeView {
    pub colors: JsonColorsView,
    pub name: Seq<char>,
}

impl View for Colors {
    type V = ColorsView;

    open spec fn view(&self) -> ColorsView {
        ColorsView {
            accent: self.accent@,
            background: self.background@,
            background_light: self.background_light@,
            background_lightest: self.background_lightest@,
            focus_round: self.focus_round@,
            focus_round_middle: self.focus_round_middle@,
            focus_round_end: self.focus_round_end@,
            foreground: self.foreground@,
            foreground_darker: self.foreground_darker@,
            foreground_darkest: self.foreground_darkest@,
            long_round: self.long_round@,
            short_round: self.short_round@,
        }
    }
}

impl View for Theme {
    type V = ThemeView;

    open spec fn view(&self) -> ThemeView {
        ThemeView { colors: self.colors@, name: self.name@ }
    }
}

impl View for JsonColors {
    type V = JsonColorsView;

    open spec fn view(&self) -> JsonColorsView {
        JsonColorsView {
            accent: self.accent@,
            background: self.background@,
            background_light: self.background_light@,
            background_lightest: self.background_lightest@,
            focus_round: self.focus_round@,
            focus_round_middle: text_view(self.focus_round_middle),
            focus_round_end: text_view(self.focus_round_end),
            foreground: self.foreground@,
            foreground_darker: self.foreground_darker@,
            foreground_darkest: self.foreground_darkest@,
            long_round: self.long_round@,
            short_round: self.short_round@,
        }
    }
}

impl View for JsonTheme {
    type V = JsonThemeView;

    open spec fn view(&self) -> JsonThemeView {
        JsonThemeView { colors: self.colors@, name: self.name@ }
    }
}

impl JsonColorsView {
    /// The middle and the end of the focus round's gradient. Where both are
    /// stored, they are taken as they stand. Otherwise, where the colors of
    /// the short round and of the focus round can both be read, the middle
    /// is the color half-way between them and the end is the short round's
    /// color; where one of them cannot, both are the focus round's color.
    pub open spec fn gradient(self, short: Option<Rgb>, focus: Option<Rgb>) -> (
        Seq<char>,
        Seq<char>,
    ) {
        match (self.focus_round_middle, self.focus_round_end) {
            (Some(middle), Some(end)) => (middle, end),
            _ => match (short, focus) {
                (Some(first), Some(second)) => (
                    color_text(middle_of(first, second)),
                    self.short_round,
                ),
                _ => (self.focus_round, self.focus_round),
            },
        }
    }
}

impl JsonThemeView {
    /// The theme as the interface uses it, given what the colors of the
    /// short round and of the focus round read as.
    pub open spec fn theme_with(self, short: Option<Rgb>, focus: Option<Rgb>) -> ThemeView {
        ThemeView {
            colors: ColorsView {
                accent: self.colors.accent,
                background: self.colors.background,
                background_light: self.colors.background_light,
                background_lightest: self.colors.background_lightest,
                focus_round: self.colors.focus_round,
                focus_round_middle: self.colors.gradient(short, focus).0,
                focus_round_end: self.colors.gradient(short, focus).1,
                foreground: self.colors.foreground,
                foreground_darker: self.colors.foreground_darker,
                foreground_darkest: self.colors.foreground_darkest,
                long_round: self.colors.long_round,
                short_round: self.colors.short_round,
            },
            name: self.name,
        }
    }

    /// The theme as the interface uses it.
    pub open spec fn theme(self) -> ThemeView {
        self.theme_with(color_of(self.colors.short_round), color_of(self.colors.focus_round))
    }
}

impl Theme {
    /// The theme for a stored theme, given what the colors of its short
    /// round and of its focus round read as.
    pub fn with_colors(json_theme: JsonTheme, short: Option<Rgb>, focus: Option<Rgb>) -> (theme:
        Theme)
        ensures
            theme@ == json_theme@.theme_with(short, focus),
    {
        let stored = match (
            &json_theme.colors.focus_round_middle,
            &json_theme.colors.focus_round_end,
        ) {
            (Some(middle), Some(end)) => Some((middle.clone(), end.clone())),
            _ => None,
        };
        let (focus_round_middle, focus_round_end) = match stored {
            Some(pair) => pair,
            None => match (short, focus) {
                (Some(first), Some(second)) => (
                    color_to_text(middle_color(first, second)),
                    json_theme.colors.short_round.clone(),
                ),
                _ => (json_theme.colors.focus_round.clone(), json_theme.colors.focus_round.clone()),
            },
        };
        Theme {
            colors: Colors {
                accent: json_theme.colors.accent,
                background: json_theme.colors.background,
                background_light: json_theme.colors.background_light,
                background_lightest: json_theme.colors.background_lightest,
                focus_round: json_theme.colors.focus_round,
                focus_round_middle,
                focus_round_end,
                foreground: json_theme.colors.foreground,
                foreground_darker: json_theme.colors.foreground_darker,
                foreground_darkest: json_theme.colors.foreground_darkest,
                long_round: json_theme.colors.long_round,
                short_round: json_theme.colors.short_round,
            },
            name: json_theme.name,
        }
    }

    /// The theme for a stored theme.
    pub fn from_json(json_theme: JsonTheme) -> (theme: Theme)
        ensures
            theme@ == json_theme@.theme(),
    {
        let short = read_color(json_theme.colors.short_round.as_str());
        let focus = read_color(json_theme.colors.focus_round.as_str());
        Theme::with_colors(json_theme, short, focus)
    }
}

} // verus!
