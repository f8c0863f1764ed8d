//! The theme customizer: edits the accent, background, foreground and terminal colours
//! of a theme starting from a base theme, previewing each change.
use vstd::prelude::*;
use crate::color::{channels_or_zero, hex_slices_ok, parse_hex_color, rgb_hex_text, rgb_to_hex, spec_channels_or_zero, spec_parse_hex, Rgb8};
use crate::text::{copy_strings, owned};

verus! {

/// The eight colours of a terminal palette, as `#rrggbb` texts.
#[derive(Debug)]
pub struct PaletteColors {
    pub black: String,
    pub red: String,
    pub green: String,
    pub yellow: String,
    pub blue: String,
    pub magenta: String,
    pub cyan: String,
    pub white: String,
}

/// The normal and bright palettes.
#[derive(Debug)]
pub struct TerminalPalettes {
    pub normal: PaletteColors,
    pub bright: PaletteColors,
}

/// A theme being customized.
#[derive(Debug)]
pub struct CustomTheme {
    pub name: String,
    pub accent: String,
    pub background: String,
    pub foreground: String,
    pub terminal_colors: TerminalPalettes,
}

impl PaletteColors {
    pub fn duplicate(&self) -> (r: Self)
        ensures
            r == *self,
    {
        PaletteColors {
            black: self.black.clone(),
            red: self.red.clone(),
            green: self.green.clone(),
            yellow: self.yellow.clone(),
            blue: self.blue.clone(),
            magenta: self.magenta.clone(),
            cyan: self.cyan.clone(),
            white: self.white.clone(),
        }
    }

    /// The eight colours in the order black, red, green, yellow, blue, magenta, cyan, white.
    pub open spec fn view(self) -> Seq<Seq<char>> {
        seq![self.black@, self.red@, self.green@, self.yellow@, self.blue@, self.magenta@, self.cyan@, self.white@]
    }

    /// Sets the colour of that name; an unknown name changes nothing.
    pub fn set_color(&mut self, name: &str, hex: String)
        ensures
            final(self).view() == with_color(old(self).view(), name@, hex@),
    {
        let n = owned(name);
        if n.eq(&owned("black")) {
            self.black = hex;
        } else if n.eq(&owned("red")) {
            self.red = hex;
        } else if n.eq(&owned("green")) {
            self.green = hex;
        } else if n.eq(&owned("yellow")) {
            self.yellow = hex;
        } else if n.eq(&owned("blue")) {
            self.blue = hex;
        } else if n.eq(&owned("magenta")) {
            self.magenta = hex;
        } else if n.eq(&owned("cyan")) {
            self.cyan = hex;
        } else if n.eq(&owned("white")) {
            self.white = hex;
        }
    }
}

/// Position of a terminal colour among the eight, or -1 for an unknown name.
pub open spec fn color_index(name: Seq<char>) -> int {
    if name == "black"@ {
        0
    } else if name == "red"@ {
        1
    } else if name == "green"@ {
        2
    } else if name == "yellow"@ {
        3
    } else if name == "blue"@ {
        4
    } else if name == "magenta"@ {
        5
    } else if name == "cyan"@ {
        6
    } else if name == "white"@ {
        7
    } else {
        -1
    }
}

/// A palette with the colour of that name set (an unknown name changes nothing).
pub open spec fn with_color(p: Seq<Seq<char>>, name: Seq<char>, hex: Seq<char>) -> Seq<Seq<char>> {
    if color_index(name) >= 0 {
        p.update(color_index(name), hex)
    } else {
        p
    }
}

/// A customized theme as values.
pub struct CustomThemeView {
    pub name: Seq<char>,
    pub accent: Seq<char>,
    pub background: Seq<char>,
    pub foreground: Seq<char>,
    pub normal: Seq<Seq<char>>,
    pub bright: Seq<Seq<char>>,
}

impl CustomTheme {
    pub open spec fn view(self) -> CustomThemeView {
        CustomThemeView {
            name: self.name@,
            accent: self.accent@,
            background: self.background@,
            foreground: self.foreground@,
            normal: self.terminal_colors.normal.view(),
            bright: self.terminal_colors.bright.view(),
        }
    }

    pub fn duplicate(&self) -> (r: Self)
        ensures
            r == *self,
    {
        CustomTheme {
            name: self.name.clone(),
            accent: self.accent.clone(),
            background: self.background.clone(),
            foreground: self.foreground.clone(),
            terminal_colors: TerminalPalettes {
                normal: self.terminal_colors.normal.duplicate(),
                bright: self.terminal_colors.bright.duplicate(),
            },
        }
    }
}

/// A change made in the customizer. Colours come as 8-bit channels.
#[derive(Debug)]
pub enum ThemeCustomizerMessage {
    AccentColorChanged(Rgb8),
    BackgroundColorChanged(Rgb8),
    ForegroundColorChanged(Rgb8),
    /// A terminal colour, by name, in the bright or the normal palette.
    TerminalColorChanged(String, bool, Rgb8),
    BaseThemeSelected(String),
    SaveCustomTheme(String),
    ResetToBase,
    PreviewToggled(bool),
    ExportTheme,
    ImportTheme(String),
}

/// What the customizer asks the terminal to do.
#[derive(Debug)]
pub enum CustomizerRequest {
    ThemePreviewUpdated(CustomTheme),
    ThemePreviewDisabled,
    LoadBaseThemeForCustomization(String),
    SaveCustomTheme(String, CustomTheme),
    ExportTheme(CustomTheme),
    ImportTheme(String),
}

/// Which colour picker is open.
#[derive(Debug)]
pub enum ColorPickerType {
    Accent,
    Background,
    Foreground,
    Terminal(String, bool),
}

/// The customizer.
pub struct ThemeCustomizer {
    current_theme: CustomTheme,
    base_theme_name: String,
    available_base_themes: Vec<String>,
    custom_theme_name: String,
    is_visible: bool,
    preview_enabled: bool,
    active_picker: Option<ColorPickerType>,
}

/// The theme after a colour change: the changed colour becomes its `#rrggbb` text.
pub open spec fn theme_after(t: CustomThemeView, m: ThemeCustomizerMessage) -> CustomThemeView {
    match m {
        ThemeCustomizerMessage::AccentColorChanged(c) => CustomThemeView { accent: rgb_hex_text(c), ..t },
        ThemeCustomizerMessage::BackgroundColorChanged(c) => CustomThemeView { background: rgb_hex_text(c), ..t },
        ThemeCustomizerMessage::ForegroundColorChanged(c) => CustomThemeView { foreground: rgb_hex_text(c), ..t },
        ThemeCustomizerMessage::TerminalColorChanged(name, bright, c) => if bright {
            CustomThemeView { bright: with_color(t.bright, name@, rgb_hex_text(c)), ..t }
        } else {
            CustomThemeView { normal: with_color(t.normal, name@, rgb_hex_text(c)), ..t }
        },
        _ => t,
    }
}

/// A main colour as the customizer shows it: its label, its text and the colour drawn.
#[derive(Debug)]
pub struct ColorSwatch {
    pub label: String,
    pub hex: String,
    pub color: Rgb8,
}

/// A terminal colour button: its label, the colour's name, its palette (bright or
/// normal) and the colour drawn.
#[derive(Debug)]
pub struct PaletteSwatch {
    pub label: String,
    pub color_name: String,
    pub bright: bool,
    pub color: Rgb8,
}

/// What the customizer shows: the base theme and the choice of base themes, the main
/// colours, the two terminal palettes, and the name the theme is saved under.
#[derive(Debug)]
pub struct CustomizerForm {
    pub base_theme: String,
    pub base_themes: Vec<String>,
    pub main_colors: Vec<ColorSwatch>,
    pub normal_colors: Vec<PaletteSwatch>,
    pub bright_colors: Vec<PaletteSwatch>,
    pub custom_name: String,
}

/// The channels a colour text is drawn with: those `hex_to_color` reads, or black.
pub open spec fn drawn(hex: Seq<char>) -> (nat, nat, nat) {
    match spec_channels_or_zero(hex) {
        Some(t) => t,
        None => (0, 0, 0),
    }
}

/// The channels of a colour.
pub open spec fn channels(c: Rgb8) -> (nat, nat, nat) {
    (c.r as nat, c.g as nat, c.b as nat)
}

/// The labels of the terminal colour buttons, in palette order.
pub open spec fn palette_labels() -> Seq<Seq<char>> {
    seq!["Black"@, "Red"@, "Green"@, "Yellow"@, "Blue"@, "Magenta"@, "Cyan"@, "White"@]
}

/// The names of the terminal colours, in palette order.
pub open spec fn palette_names() -> Seq<Seq<char>> {
    seq!["black"@, "red"@, "green"@, "yellow"@, "blue"@, "magenta"@, "cyan"@, "white"@]
}

/// A swatch shows `label` and the colour text `hex`, drawn in the colour it reads as.
pub open spec fn swatch_shows(s: ColorSwatch, label: Seq<char>, hex: Seq<char>) -> bool {
    s.label@ == label && s.hex@ == hex && channels(s.color) == drawn(hex)
}

/// The buttons of a palette: one per colour, in palette order.
pub open spec fn palette_shows(v: Seq<PaletteSwatch>, colors: Seq<Seq<char>>, bright: bool) -> bool {
    &&& v.len() == 8
    &&& forall|i: int| 0 <= i < 8 ==> {
        &&& (#[trigger] v[i]).label@ == palette_labels()[i]
        &&& v[i].color_name@ == palette_names()[i]
        &&& v[i].bright == bright
        &&& channels(v[i].color) == drawn(colors[i])
    }
}

/// Every colour text of a palette can be cut into byte pairs.
pub open spec fn palette_readable(colors: Seq<Seq<char>>) -> bool {
    forall|i: int| 0 <= i < colors.len() ==> hex_slices_ok(#[trigger] colors[i])
}

/// Every colour text of the theme can be cut into byte pairs.
pub open spec fn colors_readable(t: CustomThemeView) -> bool {
    &&& hex_slices_ok(t.accent)
    &&& hex_slices_ok(t.background)
    &&& hex_slices_ok(t.foreground)
    &&& palette_readable(t.normal)
    &&& palette_readable(t.bright)
}

fn swatch(label: &str, hex: &String) -> (s: ColorSwatch)
    requires
        hex_slices_ok(hex@),
    ensures
        swatch_shows(s, label@, hex@),
{
    ColorSwatch { label: owned(label), hex: hex.clone(), color: hex_to_color(hex.as_str()) }
}

fn button(label: &str, name: &str, hex: &String, bright: bool) -> (b: PaletteSwatch)
    requires
        hex_slices_ok(hex@),
    ensures
        b.label@ == label@,
        b.color_name@ == name@,
        b.bright == bright,
        channels(b.color) == drawn(hex@),
{
    PaletteSwatch { label: owned(label), color_name: owned(name), bright, color: hex_to_color(hex.as_str()) }
}

fn palette_buttons(p: &PaletteColors, bright: bool) -> (v: Vec<PaletteSwatch>)
    requires
        palette_readable(p.view()),
    ensures
        palette_shows(v@, p.view(), bright),
{
    assert(hex_slices_ok(p.view()[0]) && hex_slices_ok(p.view()[1]) && hex_slices_ok(p.view()[2])
        && hex_slices_ok(p.view()[3]) && hex_slices_ok(p.view()[4]) && hex_slices_ok(p.view()[5])
        && hex_slices_ok(p.view()[6]) && hex_slices_ok(p.view()[7]));
    let mut v: Vec<PaletteSwatch> = Vec::new();
    v.push(button("Black", "black", &p.black, bright));
    v.push(button("Red", "red", &p.red, bright));
    v.push(button("Green", "green", &p.green, bright));
    v.push(button("Yellow", "yellow", &p.yellow, bright));
    v.push(button("Blue", "blue", &p.blue, bright));
    v.push(button("Magenta", "magenta", &p.magenta, bright));
    v.push(button("Cyan", "cyan", &p.cyan, bright));
    v.push(button("White", "white", &p.white, bright));
    v
}

impl ThemeCustomizer {
    pub closed spec fn theme(self) -> CustomTheme {
        self.current_theme
    }

    pub closed spec fn base(self) -> Seq<char> {
        self.base_theme_name@
    }

    pub closed spec fn custom_name(self) -> Seq<char> {
        self.custom_theme_name@
    }

    pub closed spec fn visible(self) -> bool {
        self.is_visible
    }

    pub closed spec fn previewing(self) -> bool {
        self.preview_enabled
    }

    pub closed spec fn base_themes(self) -> Seq<String> {
        self.available_base_themes@
    }

    /// A hidden customizer over `current_theme`, based on `default`, previewing, with the
    /// custom name `My Custom Theme`.
    pub fn new(base_themes: Vec<String>, current_theme: CustomTheme) -> (c: Self)
        ensures
            c.theme() == current_theme,
            c.base() == "default"@,
            c.custom_name() == "My Custom Theme"@,
            c.base_themes() == base_themes@,
            !c.visible(),
            c.previewing(),
    {
        ThemeCustomizer {
            current_theme,
            base_theme_name: owned("default"),
            available_base_themes: base_themes,
            custom_theme_name: owned("My Custom Theme"),
            is_visible: false,
            preview_enabled: true,
            active_picker: None,
        }
    }

    pub fn show(&mut self)
        ensures
            final(self).visible(),
            final(self).theme() == old(self).theme(),
            final(self).previewing() == old(self).previewing(),
    {
        self.is_visible = true;
    }

    /// Hides the customizer.
    pub fn close(&mut self)
        ensures
            !final(self).visible(),
            final(self).theme() == old(self).theme(),
            final(self).previewing() == old(self).previewing(),
    {
        self.is_visible = false;
    }

    pub fn is_visible(&self) -> (r: bool)
        ensures
            r == self.visible(),
    {
        self.is_visible
    }

    pub fn get_current_theme(&self) -> (r: &CustomTheme)
        ensures
            *r == self.theme(),
    {
        &self.current_theme
    }

    pub fn set_theme(&mut self, theme: CustomTheme)
        ensures
            final(self).theme() == theme,
            final(self).base() == old(self).base(),
            final(self).visible() == old(self).visible(),
            final(self).previewing() == old(self).previewing(),
    {
        self.current_theme = theme;
    }

    /// What the customizer shows, or `None` while it is hidden.
    pub fn form(&self) -> (r: Option<CustomizerForm>)
        requires
            self.visible() ==> colors_readable(self.theme().view()),
        ensures
            !self.visible() ==> r is None,
            self.visible() ==> (r matches Some(f) && {
                let t = self.theme().view();
                &&& f.base_theme@ == self.base()
                &&& f.base_themes@.map_values(|x: String| x@) == self.base_themes().map_values(|x: String| x@)
                &&& f.custom_name@ == self.custom_name()
                &&& f.main_colors@.len() == 3
                &&& swatch_shows(f.main_colors@[0], "Accent"@, t.accent)
                &&& swatch_shows(f.main_colors@[1], "Background"@, t.background)
                &&& swatch_shows(f.main_colors@[2], "Foreground"@, t.foreground)
                &&& palette_shows(f.normal_colors@, t.normal, false)
                &&& palette_shows(f.bright_colors@, t.bright, true)
            }),
    {
        if !self.is_visible {
            return None;
        }
        let t = &self.current_theme;
        let mut main_colors: Vec<ColorSwatch> = Vec::new();
        main_colors.push(swatch("Accent", &t.accent));
        main_colors.push(swatch("Background", &t.background));
        main_colors.push(swatch("Foreground", &t.foreground));
        let normal_colors = palette_buttons(&t.terminal_colors.normal, false);
        let bright_colors = palette_buttons(&t.terminal_colors.bright, true);
        Some(CustomizerForm {
            base_theme: self.base_theme_name.clone(),
            base_themes: copy_strings(&self.available_base_themes),
            main_colors,
            normal_colors,
            bright_colors,
            custom_name: self.custom_theme_name.clone(),
        })
    }

    /// Handles a change. A colour change updates the theme and, while previewing, asks
    /// for a preview of it; picking a base theme or resetting asks for that base theme;
    /// saving records the name and asks to save the theme under it; toggling the preview
    /// asks for a preview or for its end; export and import are passed on.
    pub fn update(&mut self, message: ThemeCustomizerMessage) -> (r: Option<CustomizerRequest>)
        ensures
            final(self).theme().view() == theme_after(old(self).theme().view(), message),
            final(self).visible() == old(self).visible(),
            final(self).base() == (match message {
                ThemeCustomizerMessage::BaseThemeSelected(n) => n@,
                _ => old(self).base(),
            }),
            final(self).custom_name() == (match message {
                ThemeCustomizerMessage::SaveCustomTheme(n) => n@,
                _ => old(self).custom_name(),
            }),
            final(self).previewing() == (match message {
                ThemeCustomizerMessage::PreviewToggled(b) => b,
                _ => old(self).previewing(),
            }),
            match message {
                ThemeCustomizerMessage::AccentColorChanged(_) | ThemeCustomizerMessage::BackgroundColorChanged(_)
                | ThemeCustomizerMessage::ForegroundColorChanged(_) | ThemeCustomizerMessage::TerminalColorChanged(..) =>
                    if old(self).previewing() {
                        r matches Some(CustomizerRequest::ThemePreviewUpdated(t)) && t.view() == final(self).theme().view()
                    } else {
                        r is None
                    },
                ThemeCustomizerMessage::BaseThemeSelected(n) => r matches Some(CustomizerRequest::LoadBaseThemeForCustomization(b)) && b@ == n@,
                ThemeCustomizerMessage::SaveCustomTheme(n) => r matches Some(CustomizerRequest::SaveCustomTheme(m, t)) && m@ == n@ && t.view() == old(self).theme().view(),
                ThemeCustomizerMessage::ResetToBase => r matches Some(CustomizerRequest::LoadBaseThemeForCustomization(b)) && b@ == old(self).base(),
                ThemeCustomizerMessage::PreviewToggled(b) => if b {
                    r matches Some(CustomizerRequest::ThemePreviewUpdated(t)) && t.view() == old(self).theme().view()
                } else {
                    r matches Some(CustomizerRequest::ThemePreviewDisabled)
                },
                ThemeCustomizerMessage::ExportTheme => r matches Some(CustomizerRequest::ExportTheme(t)) && t.view() == old(self).theme().view(),
                ThemeCustomizerMessage::ImportTheme(y) => r matches Some(CustomizerRequest::ImportTheme(z)) && z@ == y@,
            },
    {
        let is_color_change = match &message {
            ThemeCustomizerMessage::AccentColorChanged(_) => true,
            ThemeCustomizerMessage::BackgroundColorChanged(_) => true,
            ThemeCustomizerMessage::ForegroundColorChanged(_) => true,
            ThemeCustomizerMessage::TerminalColorChanged(..) => true,
            _ => false,
        };
        match message {
            ThemeCustomizerMessage::AccentColorChanged(c) => {
                self.current_theme.accent = rgb_to_hex(c);
            },
            ThemeCustomizerMessage::BackgroundColorChanged(c) => {
                self.current_theme.background = rgb_to_hex(c);
            },
            ThemeCustomizerMessage::ForegroundColorChanged(c) => {
                self.current_theme.foreground = rgb_to_hex(c);
            },
            ThemeCustomizerMessage::TerminalColorChanged(name, bright, c) => {
                let hex = rgb_to_hex(c);
                if bright {
                    self.current_theme.terminal_colors.bright.set_color(name.as_str(), hex);
                } else {
                    self.current_theme.terminal_colors.normal.set_color(name.as_str(), hex);
                }
            },
            ThemeCustomizerMessage::BaseThemeSelected(theme_name) => {
                self.base_theme_name = theme_name.clone();
                return Some(CustomizerRequest::LoadBaseThemeForCustomization(theme_name));
            },
            ThemeCustomizerMessage::SaveCustomTheme(name) => {
                self.custom_theme_name = name.clone();
                return Some(CustomizerRequest::SaveCustomTheme(name, self.current_theme.duplicate()));
            },
            ThemeCustomizerMessage::ResetToBase => {
                return Some(CustomizerRequest::LoadBaseThemeForCustomization(self.base_theme_name.clone()));
            },
            ThemeCustomizerMessage::PreviewToggled(enabled) => {
                self.preview_enabled = enabled;
                if enabled {
                    return Some(CustomizerRequest::ThemePreviewUpdated(self.current_theme.duplicate()));
                } else {
                    return Some(CustomizerRequest::ThemePreviewDisabled);
                }
            },
            ThemeCustomizerMessage::ExportTheme => {
                return Some(CustomizerRequest::ExportTheme(self.current_theme.duplicate()));
            },
            ThemeCustomizerMessage::ImportTheme(yaml) => {
                return Some(CustomizerRequest::ImportTheme(yaml));
            },
        }
        if is_color_change && self.preview_enabled {
            Some(CustomizerRequest::ThemePreviewUpdated(self.current_theme.duplicate()))
        } else {
            None
        }
    }
}

/// The colour a `#RRGGBB` text shows as: its channels (0 for an unreadable pair), or
/// black when it is not six bytes after its leading `#`s.
pub fn hex_to_color(hex: &str) -> (c: Rgb8)
    requires
        hex_slices_ok(hex@),
    ensures
        match spec_channels_or_zero(hex@) {
            Some(t) => c.r == t.0 && c.g == t.1 && c.b == t.2,
            None => c == (Rgb8 { r: 0, g: 0, b: 0 }),
        },
{
    match channels_or_zero(hex) {
        Some(c) => c,
        None => Rgb8 { r: 0, g: 0, b: 0 },
    }
}

/// Reads a `#RRGGBB` text typed into a colour field; `Invalid hex color format` when it
/// is not six bytes after its leading `#`s, and an error too when a pair is not a
/// hexadecimal byte.
pub fn parse_typed_color(hex: &str) -> (r: Result<Rgb8, String>)
    requires
        hex_slices_ok(hex@),
    ensures
        r is Ok == spec_parse_hex(hex@) is Some,
        r matches Ok(c) ==> spec_parse_hex(hex@) == Some((c.r as nat, c.g as nat, c.b as nat)),
        spec_channels_or_zero(hex@) is None ==> (r matches Err(e) && e@ == "Invalid hex color format"@),
{
    match channels_or_zero(hex) {
        None => Err(owned("Invalid hex color format")),
        Some(_) => match parse_hex_color(hex) {
            Some(c) => Ok(c),
            None => Err(owned("invalid digit found in string")),
        },
    }
}

} // verus!
