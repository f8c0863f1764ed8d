//! Themes as written in YAML theme files: named palettes of hex colours.
use vstd::prelude::*;
use crate::color::{hex_slices_ok, is_dark_hex, spec_is_dark_hex};
use crate::config::theme::WarpTheme;

verus! {

/// The colours of a terminal palette.
#[derive(Debug)]
pub struct TerminalColors {
    pub background: String,
    pub foreground: String,
    pub cursor: String,
    pub selection_background: String,
    pub selection_foreground: String,
    pub black: String,
    pub red: String,
    pub green: String,
    pub yellow: String,
    pub blue: String,
    pub magenta: String,
    pub cyan: String,
    pub white: String,
    pub bright_black: String,
    pub bright_red: String,
    pub bright_green: String,
    pub bright_yellow: String,
    pub bright_blue: String,
    pub bright_magenta: String,
    pub bright_cyan: String,
    pub bright_white: String,
}

/// The primary, normal and bright palettes of a theme.
#[derive(Debug)]
pub struct ColorPalette {
    pub primary: TerminalColors,
    pub normal: TerminalColors,
    pub bright: TerminalColors,
}

/// A theme file: name, author and palettes.
#[derive(Debug)]
pub struct YamlTheme {
    pub name: String,
    pub author: String,
    pub colors: ColorPalette,
}

impl YamlTheme {
    /// The theme in the terminal's own form: background, foreground and output
    /// background from the primary palette, blue as accent, bright black as border,
    /// the normal palette's background for commands; dark when the primary background
    /// is a dark colour.
    pub fn to_iced_theme(&self) -> (r: WarpTheme)
        requires
            hex_slices_ok(self.colors.primary.background@),
        ensures
            r.name@ == self.name@,
            r.is_dark == spec_is_dark_hex(self.colors.primary.background@),
            r.background@ == self.colors.primary.background@,
            r.foreground@ == self.colors.primary.foreground@,
            r.accent@ == self.colors.primary.blue@,
            r.border@ == self.colors.primary.bright_black@,
            r.command_background@ == self.colors.normal.background@,
            r.output_background@ == self.colors.primary.background@,
    {
        WarpTheme {
            name: self.name.clone(),
            is_dark: is_dark_hex(self.colors.primary.background.as_str()),
            background: self.colors.primary.background.clone(),
            foreground: self.colors.primary.foreground.clone(),
            accent: self.colors.primary.blue.clone(),
            border: self.colors.primary.bright_black.clone(),
            command_background: self.colors.normal.background.clone(),
            output_background: self.colors.primary.background.clone(),
        }
    }
}

} // verus!
