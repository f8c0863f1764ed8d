//! Keeps the loaded YAML themes and which one is active. Reading theme files (the
//! built-in ones below, and the user's) into themes is left to the caller, which adds
//! each with `insert_theme`.
use vstd::prelude::*;
use crate::color::{hex_slices_ok, spec_is_dark_hex};
use crate::config::theme::{dark_strings, theme_strings, WarpTheme};
use crate::config::yaml_theme::YamlTheme;
use crate::table::{Table, TableKey};
use crate::text::owned;

verus! {

/// The built-in dark theme, as a theme file.
pub const DEFAULT_DARK_THEME_YAML: &'static str = "\n            name: Default Dark\n            author: Warp\n            colors:\n              primary:\n                background: \"#1E1E1E\"\n                foreground: \"#D4D4D4\"\n                cursor: \"#D4D4D4\"\n                selection_background: \"#264F78\"\n                selection_foreground: \"#FFFFFF\"\n                black: \"#000000\"\n                red: \"#CD3131\"\n                green: \"#0DBC79\"\n                yellow: \"#E5E510\"\n                blue: \"#2472C8\"\n                magenta: \"#BC3FBC\"\n                cyan: \"#0598BC\"\n                white: \"#E5E5E5\"\n              normal:\n                background: \"#1E1E1E\"\n                foreground: \"#D4D4D4\"\n                cursor: \"#D4D4D4\"\n                selection_background: \"#264F78\"\n                selection_foreground: \"#FFFFFF\"\n                black: \"#000000\"\n                red: \"#CD3131\"\n                green: \"#0DBC79\"\n                yellow: \"#E5E510\"\n                blue: \"#2472C8\"\n                magenta: \"#BC3FBC\"\n                cyan: \"#0598BC\"\n                white: \"#E5E5E5\"\n              bright:\n                background: \"#1E1E1E\"\n                foreground: \"#D4D4D4\"\n                cursor: \"#D4D4D4\"\n                selection_background: \"#264F78\"\n                selection_foreground: \"#FFFFFF\"\n                black: \"#666666\"\n                red: \"#F14C4C\"\n                green: \"#23D18B\"\n                yellow: \"#F5F543\"\n                blue: \"#3B8EEA\"\n                magenta: \"#D670D6\"\n                cyan: \"#29B8DB\"\n                white: \"#FFFFFF\"\n        ";

/// The built-in light theme, as a theme file.
pub const DEFAULT_LIGHT_THEME_YAML: &'static str = "\n            name: Default Light\n            author: Warp\n            colors:\n              primary:\n                background: \"#FFFFFF\"\n                foreground: \"#000000\"\n                cursor: \"#000000\"\n                selection_background: \"#ADD6FF\"\n                selection_foreground: \"#000000\"\n                black: \"#000000\"\n                red: \"#CD3131\"\n                green: \"#0DBC79\"\n                yellow: \"#E5E510\"\n                blue: \"#2472C8\"\n                magenta: \"#BC3FBC\"\n                cyan: \"#0598BC\"\n                white: \"#E5E5E5\"\n              normal:\n                background: \"#FFFFFF\"\n                foreground: \"#000000\"\n                cursor: \"#000000\"\n                selection_background: \"#ADD6FF\"\n                selection_foreground: \"#000000\"\n                black: \"#000000\"\n                red: \"#CD3131\"\n                green: \"#0DBC79\"\n                yellow: \"#E5E510\"\n                blue: \"#2472C8\"\n                magenta: \"#BC3FBC\"\n                cyan: \"#0598BC\"\n                white: \"#E5E5E5\"\n              bright:\n                background: \"#FFFFFF\"\n                foreground: \"#000000\"\n                cursor: \"#000000\"\n                selection_background: \"#ADD6FF\"\n                selection_foreground: \"#000000\"\n                black: \"#666666\"\n                red: \"#F14C4C\"\n                green: \"#23D18B\"\n                yellow: \"#F5F543\"\n                blue: \"#3B8EEA\"\n                magenta: \"#D670D6\"\n                cyan: \"#29B8DB\"\n                white: \"#FFFFFF\"\n        ";

/// The colours of a theme file in the terminal's form, in the order of `theme_strings`.
pub open spec fn converted_strings(y: YamlTheme) -> Seq<Seq<char>> {
    seq![
        y.name@,
        y.colors.primary.background@,
        y.colors.primary.foreground@,
        y.colors.primary.blue@,
        y.colors.primary.bright_black@,
        y.colors.normal.background@,
        y.colors.primary.background@,
    ]
}

/// The loaded themes, by name, and the name of the active one.
pub struct ThemeManager {
    themes: Table<String, YamlTheme>,
    active_theme_name: String,
}

impl ThemeManager {
    pub closed spec fn themes(self) -> Map<Seq<char>, YamlTheme> {
        self.themes.view()
    }

    pub closed spec fn active(self) -> Seq<char> {
        self.active_theme_name@
    }

    /// Whether every loaded theme can be turned into the terminal's form (its primary
    /// background can be sliced into byte pairs).
    pub open spec fn convertible(self, name: Seq<char>) -> bool {
        self.themes().contains_key(name) ==> hex_slices_ok(self.themes()[name].colors.primary.background@)
    }

    /// No themes yet; `Default Dark` is the active name.
    pub fn new() -> (m: Self)
        ensures
            m.themes() == Map::<Seq<char>, YamlTheme>::empty(),
            m.active() == "Default Dark"@,
    {
        ThemeManager { themes: Table::new(), active_theme_name: owned("Default Dark") }
    }

    /// Adds a theme under its name, replacing one of that name.
    pub fn insert_theme(&mut self, theme: YamlTheme)
        ensures
            final(self).themes() == old(self).themes().insert(theme.name@, theme),
            final(self).active() == old(self).active(),
    {
        let name = theme.name.clone();
        self.themes.insert(name, theme);
    }

    /// The names of the loaded themes.
    pub fn get_theme_names(&self) -> (r: Vec<String>)
        ensures
            r@.len() == self.themes().dom().len(),
            forall|i: int| 0 <= i < r@.len() ==> self.themes().contains_key(#[trigger] r@[i]@),
            forall|k: Seq<char>| self.themes().contains_key(k) ==> exists|i: int| 0 <= i < r@.len() && #[trigger] r@[i]@ == k,
    {
        proof {
            use_type_invariant(&self.themes);
            self.themes.lemma_wf();
        }
        let r = self.themes.keys();
        assert forall|k: Seq<char>| self.themes().contains_key(k) implies exists|i: int| 0 <= i < r@.len() && #[trigger] r@[i]@ == k by {
            let i = choose|i: int| 0 <= i < self.themes.key_seq().len() && self.themes.key_seq()[i] == k;
            assert(r@[i].key_view() == k);
        }
        assert forall|i: int| 0 <= i < r@.len() implies self.themes().contains_key(#[trigger] r@[i]@) by {
            assert(r@[i].key_view() == self.themes.key_seq()[i]);
            assert(self.themes.key_seq().contains(r@[i]@));
        }
        r
    }

    /// The active theme in the terminal's form, or the built-in dark theme when no theme
    /// has the active name.
    pub fn get_active_theme(&self) -> (r: WarpTheme)
        requires
            self.convertible(self.active()),
        ensures
            self.themes().contains_key(self.active()) ==> theme_strings(r) == converted_strings(self.themes()[self.active()])
                && r.is_dark == spec_is_dark_hex(self.themes()[self.active()].colors.primary.background@),
            !self.themes().contains_key(self.active()) ==> r.is_dark && theme_strings(r) == dark_strings(),
    {
        match self.themes.get(&self.active_theme_name) {
            Some(t) => {
                let r = t.to_iced_theme();
                assert(theme_strings(r) =~= converted_strings(*t));
                r
            },
            None => WarpTheme::default_dark(),
        }
    }

    /// Makes `name` active when a theme has that name; otherwise nothing changes.
    pub fn set_active_theme(&mut self, name: &str) -> (found: bool)
        ensures
            found == old(self).themes().contains_key(name@),
            final(self).active() == (if found { name@ } else { old(self).active() }),
            final(self).themes() == old(self).themes(),
    {
        let key = owned(name);
        if self.themes.contains_key(&key) {
            self.active_theme_name = key;
            true
        } else {
            false
        }
    }

    /// The theme of that name in the terminal's form.
    pub fn get_theme_by_name(&self, name: &str) -> (r: Option<WarpTheme>)
        requires
            self.convertible(name@),
        ensures
            r is Some == self.themes().contains_key(name@),
            r matches Some(t) ==> theme_strings(t) == converted_strings(self.themes()[name@])
                && t.is_dark == spec_is_dark_hex(self.themes()[name@].colors.primary.background@),
    {
        let key = owned(name);
        match self.themes.get(&key) {
            Some(t) => {
                let r = t.to_iced_theme();
                assert(theme_strings(r) =~= converted_strings(*t));
                Some(r)
            },
            None => None,
        }
    }

    /// The theme file contents of that name, for exporting.
    pub fn get_yaml_theme(&self, name: &str) -> (r: Option<&YamlTheme>)
        ensures
            r is Some == self.themes().contains_key(name@),
            r matches Some(t) ==> *t == self.themes()[name@],
    {
        let key = owned(name);
        self.themes.get(&key)
    }
}

} // verus!
