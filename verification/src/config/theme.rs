//! Colour themes given as hex colour strings.
use vstd::prelude::*;
use crate::color::{hex_slices_ok, parse_hex_color, spec_parse_hex, Rgb8};
use crate::text::owned;

verus! {

/// A theme: its name, whether it is dark, and its colours as `#RRGGBB` strings.
#[derive(Debug)]
pub struct WarpTheme {
    pub name: String,
    pub is_dark: bool,
    pub background: String,
    pub foreground: String,
    pub accent: String,
    pub border: String,
    pub command_background: String,
    pub output_background: String,
}

/// The colours of a theme as values, in field order.
pub open spec fn theme_strings(t: WarpTheme) -> Seq<Seq<char>> {
    seq![t.name@, t.background@, t.foreground@, t.accent@, t.border@, t.command_background@, t.output_background@]
}

/// The built-in dark theme.
pub open spec fn dark_strings() -> Seq<Seq<char>> {
    seq!["Default Dark"@, "#1E1E1E"@, "#D4D4D4"@, "#007ACC"@, "#333333"@, "#252525"@, "#1E1E1E"@]
}

/// The built-in light theme.
pub open spec fn light_strings() -> Seq<Seq<char>> {
    seq!["Default Light"@, "#FFFFFF"@, "#000000"@, "#007ACC"@, "#CCCCCC"@, "#F5F5F5"@, "#FFFFFF"@]
}

impl Default for WarpTheme {
    fn default() -> (r: Self)
        ensures
            r.is_dark,
            theme_strings(r) == dark_strings(),
    {
        proof {
            reveal_strlit("Default Dark");
            reveal_strlit("Default Light");
            assert("Default Dark"@.len() != "Default Light"@.len());
        }
        WarpTheme::from_name("Default Dark")
    }
}

/// A colour a theme gives: one of its own, read from its hex text, or the fallback used
/// when that text is not a colour.
#[derive(Debug, Clone, Copy, PartialEq, Eq, Structural)]
pub enum ThemeColor {
    Rgb(Rgb8),
    /// Black.
    Black,
    /// White.
    White,
    /// The default accent (red 0.0, green 0.5, blue 1.0).
    DefaultAccent,
    /// The default border, a dark grey (0.2 in each channel).
    DefaultBorder,
    /// The default command background of dark themes (0.15 in each channel).
    DarkCommandBackground,
    /// The default command background of light themes (0.9 in each channel).
    LightCommandBackground,
}

/// The colour a hex text denotes, or `fallback` when it denotes none.
pub open spec fn color_or(hex: Seq<char>, fallback: ThemeColor) -> ThemeColor {
    match spec_parse_hex(hex) {
        Some(c) => ThemeColor::Rgb(Rgb8 { r: c.0 as u8, g: c.1 as u8, b: c.2 as u8 }),
        None => fallback,
    }
}

fn read_color(hex: &str, fallback: ThemeColor) -> (c: ThemeColor)
    requires
        hex_slices_ok(hex@),
    ensures
        c == color_or(hex@, fallback),
{
    match parse_hex_color(hex) {
        Some(c) => ThemeColor::Rgb(c),
        None => fallback,
    }
}

impl WarpTheme {
    /// The background colour, black when its text is not a colour.
    pub fn get_background_color(&self) -> (c: ThemeColor)
        requires
            hex_slices_ok(self.background@),
        ensures
            c == color_or(self.background@, ThemeColor::Black),
    {
        read_color(self.background.as_str(), ThemeColor::Black)
    }

    /// The foreground colour, white when its text is not a colour.
    pub fn get_foreground_color(&self) -> (c: ThemeColor)
        requires
            hex_slices_ok(self.foreground@),
        ensures
            c == color_or(self.foreground@, ThemeColor::White),
    {
        read_color(self.foreground.as_str(), ThemeColor::White)
    }

    /// The accent colour, or the default accent.
    pub fn get_accent_color(&self) -> (c: ThemeColor)
        requires
            hex_slices_ok(self.accent@),
        ensures
            c == color_or(self.accent@, ThemeColor::DefaultAccent),
    {
        read_color(self.accent.as_str(), ThemeColor::DefaultAccent)
    }

    /// The border colour, or the default border.
    pub fn get_border_color(&self) -> (c: ThemeColor)
        requires
            hex_slices_ok(self.border@),
        ensures
            c == color_or(self.border@, ThemeColor::DefaultBorder),
    {
        read_color(self.border.as_str(), ThemeColor::DefaultBorder)
    }

    /// The background of command blocks, or the default for a dark or light theme.
    pub fn get_command_background_color(&self, is_dark_theme: bool) -> (c: ThemeColor)
        requires
            hex_slices_ok(self.command_background@),
        ensures
            c == color_or(
                self.command_background@,
                if is_dark_theme { ThemeColor::DarkCommandBackground } else { ThemeColor::LightCommandBackground },
            ),
    {
        if is_dark_theme {
            read_color(self.command_background.as_str(), ThemeColor::DarkCommandBackground)
        } else {
            read_color(self.command_background.as_str(), ThemeColor::LightCommandBackground)
        }
    }

    /// The background of output blocks, or black (dark theme) or white (light theme).
    pub fn get_output_background_color(&self, is_dark_theme: bool) -> (c: ThemeColor)
        requires
            hex_slices_ok(self.output_background@),
        ensures
            c == color_or(self.output_background@, if is_dark_theme { ThemeColor::Black } else { ThemeColor::White }),
    {
        if is_dark_theme {
            read_color(self.output_background.as_str(), ThemeColor::Black)
        } else {
            read_color(self.output_background.as_str(), ThemeColor::White)
        }
    }

    /// The built-in theme called `name`: "Default Light" gives the light theme, any
    /// other name the dark one.
    pub fn from_name(name: &str) -> (r: Self)
        ensures
            name@ == "Default Light"@ ==> !r.is_dark && theme_strings(r) == light_strings(),
            name@ != "Default Light"@ ==> r.is_dark && theme_strings(r) == dark_strings(),
    {
        proof {
            reveal_strlit("Default Dark");
            reveal_strlit("Default Light");
            assert("Default Dark"@.len() != "Default Light"@.len());
        }
        if owned(name).eq(&owned("Default Dark")) {
            Self::default_dark()
        } else if owned(name).eq(&owned("Default Light")) {
            Self::default_light()
        } else {
            Self::default_dark()
        }
    }

    /// The built-in dark theme.
    pub fn default_dark() -> (r: Self)
        ensures
            r.is_dark,
            theme_strings(r) == dark_strings(),
    {
        let r = WarpTheme {
            name: owned("Default Dark"),
            is_dark: true,
            background: owned("#1E1E1E"),
            foreground: owned("#D4D4D4"),
            accent: owned("#007ACC"),
            border: owned("#333333"),
            command_background: owned("#252525"),
            output_background: owned("#1E1E1E"),
        };
        assert(theme_strings(r) =~= dark_strings());
        r
    }

    /// The built-in light theme.
    pub fn default_light() -> (r: Self)
        ensures
            !r.is_dark,
            theme_strings(r) == light_strings(),
    {
        let r = WarpTheme {
            name: owned("Default Light"),
            is_dark: false,
            background: owned("#FFFFFF"),
            foreground: owned("#000000"),
            accent: owned("#007ACC"),
            border: owned("#CCCCCC"),
            command_background: owned("#F5F5F5"),
            output_background: owned("#FFFFFF"),
        };
        assert(theme_strings(r) =~= light_strings());
        r
    }

    pub fn is_dark_theme(&self) -> (r: bool)
        ensures
            r == self.is_dark,
    {
        self.is_dark
    }

    /// A copy of the theme.
    pub fn duplicate(&self) -> (r: Self)
        ensures
            r.is_dark == self.is_dark,
            theme_strings(r) == theme_strings(*self),
    {
        WarpTheme {
            name: self.name.clone(),
            is_dark: self.is_dark,
            background: self.background.clone(),
            foreground: self.foreground.clone(),
            accent: self.accent.clone(),
            border: self.border.clone(),
            command_background: self.command_background.clone(),
            output_background: self.output_background.clone(),
        }
    }
}

} // verus!
