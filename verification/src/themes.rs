//! Named colour themes whose colours are red-green-blue triples of single-precision
//! fractions (0.0 to 1.0), and a manager that picks the current one.
//! Each fraction is held by its IEEE-754 bit pattern (`f32::to_bits`).
use vstd::prelude::*;
use crate::table::{Duplicate, Table, TableKey};
use crate::text::{concat, concat3, owned, to_lowercase, lowercase};

verus! {

/// A colour as three single-precision fractions, each held by its bit pattern.
#[derive(Debug, Clone, Copy, PartialEq, Eq, Structural)]
pub struct RgbBits {
    pub r: u32,
    pub g: u32,
    pub b: u32,
}

impl Duplicate for RgbBits {
    open spec fn same_as(&self, other: &Self) -> bool {
        *self == *other
    }

    fn duplicate(&self) -> (r: Self) {
        *self
    }
}

/// Bit patterns of the fractions the built-in themes use.
pub const F0: u32 = 0u32;
pub const F01: u32 = 0x3dcc_cccdu32;
pub const F015: u32 = 0x3e19_999au32;
pub const F02: u32 = 0x3e4c_cccdu32;
pub const F03: u32 = 0x3e99_999au32;
pub const F06: u32 = 0x3f19_999au32;
pub const F07: u32 = 0x3f33_3333u32;
pub const F08: u32 = 0x3f4c_cccdu32;
pub const F085: u32 = 0x3f59_999au32;
pub const F09: u32 = 0x3f66_6666u32;
pub const F1: u32 = 0x3f80_0000u32;

pub open spec fn rgb(r: u32, g: u32, b: u32) -> RgbBits {
    RgbBits { r, g, b }
}

fn mk(r: u32, g: u32, b: u32) -> (c: RgbBits)
    ensures
        c == rgb(r, g, b),
{
    RgbBits { r, g, b }
}

/// The palette of a built-in theme, given its background and foreground.
pub open spec fn builtin_palette(background: RgbBits, foreground: RgbBits) -> Map<Seq<char>, RgbBits> {
    map![
        "background"@ => background,
        "foreground"@ => foreground,
        "black"@ => rgb(F0, F0, F0),
        "red"@ => rgb(F08, F02, F02),
        "green"@ => rgb(F02, F08, F02),
        "yellow"@ => rgb(F08, F08, F02),
        "blue"@ => rgb(F02, F02, F08),
        "magenta"@ => rgb(F08, F02, F08),
        "cyan"@ => rgb(F02, F08, F08),
        "white"@ => rgb(F07, F07, F07),
        "bright_black"@ => rgb(F03, F03, F03),
        "bright_red"@ => rgb(F1, F0, F0),
        "bright_green"@ => rgb(F0, F1, F0),
        "bright_yellow"@ => rgb(F1, F1, F0),
        "bright_blue"@ => rgb(F0, F0, F1),
        "bright_magenta"@ => rgb(F1, F0, F1),
        "bright_cyan"@ => rgb(F0, F1, F1),
        "bright_white"@ => rgb(F1, F1, F1),
        "block_background_dark"@ => rgb(F015, F015, F015),
        "block_background_light"@ => rgb(F085, F085, F085)
    ]
}

/// A theme: its name, whether it is dark, its named colours, accent and border.
#[derive(Debug)]
pub struct WarpTheme {
    pub name: String,
    pub is_dark: bool,
    pub colors: Table<String, RgbBits>,
    pub accent_color: RgbBits,
    pub border_color: RgbBits,
}

impl Duplicate for WarpTheme {
    open spec fn same_as(&self, other: &Self) -> bool {
        &&& self.name@ == other.name@
        &&& self.is_dark == other.is_dark
        &&& self.colors.view() == other.colors.view()
        &&& self.accent_color == other.accent_color
        &&& self.border_color == other.border_color
    }

    fn duplicate(&self) -> (r: Self) {
        let colors = self.colors.duplicate();
        assert(colors.view() =~= self.colors.view());
        WarpTheme {
            name: self.name.clone(),
            is_dark: self.is_dark,
            colors,
            accent_color: self.accent_color,
            border_color: self.border_color,
        }
    }
}

fn palette(background: RgbBits, foreground: RgbBits) -> (t: Table<String, RgbBits>)
    ensures
        t.view() == builtin_palette(background, foreground),
{
    let mut t: Table<String, RgbBits> = Table::new();
    t.insert(owned("background"), background);
    t.insert(owned("foreground"), foreground);
    t.insert(owned("black"), mk(F0, F0, F0));
    t.insert(owned("red"), mk(F08, F02, F02));
    t.insert(owned("green"), mk(F02, F08, F02));
    t.insert(owned("yellow"), mk(F08, F08, F02));
    t.insert(owned("blue"), mk(F02, F02, F08));
    t.insert(owned("magenta"), mk(F08, F02, F08));
    t.insert(owned("cyan"), mk(F02, F08, F08));
    t.insert(owned("white"), mk(F07, F07, F07));
    t.insert(owned("bright_black"), mk(F03, F03, F03));
    t.insert(owned("bright_red"), mk(F1, F0, F0));
    t.insert(owned("bright_green"), mk(F0, F1, F0));
    t.insert(owned("bright_yellow"), mk(F1, F1, F0));
    t.insert(owned("bright_blue"), mk(F0, F0, F1));
    t.insert(owned("bright_magenta"), mk(F1, F0, F1));
    t.insert(owned("bright_cyan"), mk(F0, F1, F1));
    t.insert(owned("bright_white"), mk(F1, F1, F1));
    t.insert(owned("block_background_dark"), mk(F015, F015, F015));
    t.insert(owned("block_background_light"), mk(F085, F085, F085));
    assert(t.view() =~= builtin_palette(background, foreground));
    t
}

/// The colour `name` has in a palette; black where it has none.
pub open spec fn color_in(colors: Map<Seq<char>, RgbBits>, name: Seq<char>) -> RgbBits {
    if colors.contains_key(name) {
        colors[name]
    } else {
        rgb(F0, F0, F0)
    }
}

impl Default for WarpTheme {
    fn default() -> (r: Self)
        ensures
            r.name@ == "Default Dark"@,
            r.is_dark,
            r.colors.view() == builtin_palette(rgb(F01, F01, F01), rgb(F09, F09, F09)),
    {
        WarpTheme::default_dark()
    }
}

/// `t` is the built-in dark theme.
pub open spec fn is_default_dark(t: WarpTheme) -> bool {
    &&& t.name@ == "Default Dark"@
    &&& t.is_dark
    &&& t.colors.view() == builtin_palette(rgb(F01, F01, F01), rgb(F09, F09, F09))
    &&& t.accent_color == rgb(F0, F06, F1)
    &&& t.border_color == rgb(F03, F03, F03)
}

/// `t` is the built-in light theme.
pub open spec fn is_default_light(t: WarpTheme) -> bool {
    &&& t.name@ == "Default Light"@
    &&& !t.is_dark
    &&& t.colors.view() == builtin_palette(rgb(F09, F09, F09), rgb(F01, F01, F01))
    &&& t.accent_color == rgb(F0, F06, F1)
    &&& t.border_color == rgb(F07, F07, F07)
}

impl WarpTheme {
    /// The built-in theme of that name; any other name gives the dark theme.
    pub fn from_name(name: &str) -> (r: Self)
        ensures
            if name@ == "Default Light"@ {
                is_default_light(r)
            } else {
                is_default_dark(r)
            },
    {
        if owned(name).eq(&owned("Default Light")) {
            WarpTheme::default_light()
        } else {
            WarpTheme::default_dark()
        }
    }

    /// The built-in dark theme.
    pub fn default_dark() -> (r: Self)
        ensures
            r.name@ == "Default Dark"@,
            r.is_dark,
            r.colors.view() == builtin_palette(rgb(F01, F01, F01), rgb(F09, F09, F09)),
            r.accent_color == rgb(F0, F06, F1),
            r.border_color == rgb(F03, F03, F03),
    {
        WarpTheme {
            name: owned("Default Dark"),
            is_dark: true,
            colors: palette(mk(F01, F01, F01), mk(F09, F09, F09)),
            accent_color: mk(F0, F06, F1),
            border_color: mk(F03, F03, F03),
        }
    }

    /// The built-in light theme.
    pub fn default_light() -> (r: Self)
        ensures
            r.name@ == "Default Light"@,
            !r.is_dark,
            r.colors.view() == builtin_palette(rgb(F09, F09, F09), rgb(F01, F01, F01)),
            r.accent_color == rgb(F0, F06, F1),
            r.border_color == rgb(F07, F07, F07),
    {
        WarpTheme {
            name: owned("Default Light"),
            is_dark: false,
            colors: palette(mk(F09, F09, F09), mk(F01, F01, F01)),
            accent_color: mk(F0, F06, F1),
            border_color: mk(F07, F07, F07),
        }
    }

    /// The named colour; black when the theme has none of that name.
    pub fn get_color(&self, name: &str) -> (c: RgbBits)
        ensures
            c == color_in(self.colors.view(), name@),
    {
        let key = owned(name);
        match self.colors.get(&key) {
            Some(c) => *c,
            None => mk(F0, F0, F0),
        }
    }

    pub fn get_background_color(&self) -> (c: RgbBits)
        ensures
            c == color_in(self.colors.view(), "background"@),
    {
        self.get_color("background")
    }

    pub fn get_foreground_color(&self) -> (c: RgbBits)
        ensures
            c == color_in(self.colors.view(), "foreground"@),
    {
        self.get_color("foreground")
    }

    pub fn get_accent_color(&self) -> (c: RgbBits)
        ensures
            c == self.accent_color,
    {
        self.accent_color
    }

    pub fn get_border_color(&self) -> (c: RgbBits)
        ensures
            c == self.border_color,
    {
        self.border_color
    }

    /// The terminal colour `name`, or its bright variant `bright_<name>`.
    pub fn get_terminal_color(&self, name: &str, bright: bool) -> (c: RgbBits)
        ensures
            c == color_in(self.colors.view(), if bright { "bright_"@ + name@ } else { name@ }),
    {
        if bright {
            let key = concat("bright_", name);
            self.get_color(key.as_str())
        } else {
            self.get_color(name)
        }
    }

    /// The block background of a dark or light surrounding.
    pub fn get_block_background_color(&self, is_dark_theme: bool) -> (c: RgbBits)
        ensures
            c == color_in(
                self.colors.view(),
                if is_dark_theme { "block_background_dark"@ } else { "block_background_light"@ },
            ),
    {
        if is_dark_theme {
            self.get_color("block_background_dark")
        } else {
            self.get_color("block_background_light")
        }
    }

    pub fn is_dark_theme(&self) -> (r: bool)
        ensures
            r == self.is_dark,
    {
        self.is_dark
    }
}

/// `s` with every space replaced by an underscore.
pub open spec fn spaces_to_underscores(s: Seq<char>) -> Seq<char> {
    s.map_values(|c: char| if c == ' ' { '_' } else { c })
}

/// The file a theme of that name is saved to: spaces become underscores, the
/// result is lowercased, and `.yaml` is appended.
pub open spec fn theme_file_name_of(name: Seq<char>) -> Seq<char> {
    lowercase(spaces_to_underscores(name)) + ".yaml"@
}

/// Name of the file a theme is saved to.
pub fn theme_file_name(name: &str) -> (r: String)
    ensures
        r@ == theme_file_name_of(name@),
{
    let mut u = String::new();
    let ghost s = name@;
    for c in it: name.chars()
        invariant
            s == name@,
            it.seq() == s,
            u@ == spaces_to_underscores(s.take(it.index() as int)),
    {
        assert(s.take(it.index() + 1) =~= s.take(it.index() as int).push(c));
        if c == ' ' {
            crate::text::push_char(&mut u, '_');
        } else {
            crate::text::push_char(&mut u, c);
        }
        assert(u@ =~= spaces_to_underscores(s.take(it.index() + 1)));
    }
    assert(s.take(s.len() as int) =~= s);
    let lower = to_lowercase(u.as_str());
    concat(lower.as_str(), ".yaml")
}

/// The themes on offer and the name of the current one.
pub struct ThemeManager {
    themes: Table<String, WarpTheme>,
    current_theme_name: String,
    themes_dir: String,
}

impl ThemeManager {
    /// The themes by name.
    pub closed spec fn themes(self) -> Map<Seq<char>, WarpTheme> {
        self.themes.view()
    }

    pub closed spec fn current_name(self) -> Seq<char> {
        self.current_theme_name@
    }

    pub closed spec fn dir(self) -> Seq<char> {
        self.themes_dir@
    }

    /// A manager over `themes_dir` holding the two built-in themes, the dark one current.
    /// Themes found in the directory are added with `add_theme`.
    pub fn new(themes_dir: String) -> (m: Self)
        ensures
            m.dir() == themes_dir@,
            m.current_name() == "Default Dark"@,
            m.themes().dom() == set!["Default Dark"@, "Default Light"@],
            is_default_dark(m.themes()["Default Dark"@]),
            is_default_light(m.themes()["Default Light"@]),
    {
        let mut m = ThemeManager { themes: Table::new(), current_theme_name: owned("Default Dark"), themes_dir };
        m.load_builtin_themes();
        m
    }

    /// Forgets every theme but the two built-in ones.
    pub fn load_builtin_themes(&mut self)
        ensures
            final(self).themes().dom() == set!["Default Dark"@, "Default Light"@],
            is_default_dark(final(self).themes()["Default Dark"@]),
            is_default_light(final(self).themes()["Default Light"@]),
            final(self).current_name() == old(self).current_name(),
            final(self).dir() == old(self).dir(),
    {
        let mut t: Table<String, WarpTheme> = Table::new();
        t.insert(owned("Default Dark"), WarpTheme::default_dark());
        t.insert(owned("Default Light"), WarpTheme::default_light());
        proof {
            reveal_strlit("Default Dark");
            reveal_strlit("Default Light");
            assert("Default Dark"@[8] != "Default Light"@[8]);
        }
        assert(t.view().dom() =~= set!["Default Dark"@, "Default Light"@]);
        self.themes = t;
    }

    /// Adds a theme under its own name, replacing one of that name.
    pub fn add_theme(&mut self, theme: WarpTheme)
        ensures
            final(self).themes() == old(self).themes().insert(theme.name@, theme),
            final(self).current_name() == old(self).current_name(),
            final(self).dir() == old(self).dir(),
    {
        let name = theme.name.clone();
        self.themes.insert(name, theme);
    }

    /// A copy of the current theme, or of the built-in dark one when the current
    /// name has no theme.
    pub fn get_current_theme(&self) -> (r: WarpTheme)
        ensures
            self.themes().contains_key(self.current_name()) ==> r.same_as(&self.themes()[self.current_name()]),
            !self.themes().contains_key(self.current_name()) ==> is_default_dark(r),
    {
        match self.themes.get(&self.current_theme_name) {
            Some(t) => t.duplicate(),
            None => WarpTheme::default_dark(),
        }
    }

    /// Makes `name` current if there is a theme of that name; otherwise reports
    /// `Theme '<name>' not found.` and changes nothing.
    pub fn set_current_theme(&mut self, name: &str) -> (r: Result<(), String>)
        ensures
            r is Ok == old(self).themes().contains_key(name@),
            r is Ok ==> final(self).current_name() == name@,
            r matches Err(e) ==> e@ == "Theme '"@ + name@ + "' not found."@ && final(self).current_name() == old(self).current_name(),
            final(self).themes() == old(self).themes(),
            final(self).dir() == old(self).dir(),
    {
        let key = owned(name);
        if self.themes.contains_key(&key) {
            self.current_theme_name = key;
            Ok(())
        } else {
            Err(concat3("Theme '", name, "' not found."))
        }
    }

    /// The names of the themes on offer.
    pub fn get_available_themes(&self) -> (r: Vec<String>)
        ensures
            r@.len() == self.themes().dom().len(),
            forall|i: int| 0 <= i < r@.len() ==> self.themes().contains_key(#[trigger] r@[i]@),
            forall|k: Seq<char>| self.themes().contains_key(k) ==> exists|i: int| 0 <= i < r@.len() && #[trigger] r@[i]@ == k,
    {
        proof {
            use_type_invariant(&self.themes);
            self.themes.lemma_wf();
        }
        let r = self.themes.keys();
        assert forall|k: Seq<char>| self.themes().contains_key(k) implies exists|i: int| 0 <= i < r@.len() && #[trigger] r@[i]@ == k by {
            let i = choose|i: int| 0 <= i < self.themes.key_seq().len() && self.themes.key_seq()[i] == k;
            assert(r@[i].key_view() == k);
        }
        assert forall|i: int| 0 <= i < r@.len() implies self.themes().contains_key(#[trigger] r@[i]@) by {
            assert(r@[i].key_view() == self.themes.key_seq()[i]);
            assert(self.themes.key_seq().contains(r@[i]@));
        }
        r
    }

    /// Where a theme of that name is saved: `<themes_dir>/<file name>`.
    pub fn theme_path(&self, name: &str) -> (r: String)
        ensures
            r@ == self.dir() + "/"@ + theme_file_name_of(name@),
    {
        let file = theme_file_name(name);
        concat3(self.themes_dir.as_str(), "/", file.as_str())
    }
}

} // verus!
