//! A picker over the theme names.
use vstd::prelude::*;
use crate::themes::{builtin_palette, rgb, WarpTheme, F01, F09};

verus! {

/// A theme was picked.
#[derive(Debug)]
pub enum ThemeSelectorMessage {
    ThemeSelected(String),
}

/// The theme picker.
pub struct ThemeSelector {
    available_themes: Vec<String>,
    selected_theme: String,
}

impl ThemeSelector {
    pub closed spec fn names(self) -> Seq<String> {
        self.available_themes@
    }

    pub closed spec fn selected(self) -> Seq<char> {
        self.selected_theme@
    }

    pub fn new(available_themes: Vec<String>, current_theme_name: String) -> (s: Self)
        ensures
            s.names() == available_themes@,
            s.selected() == current_theme_name@,
    {
        ThemeSelector { available_themes, selected_theme: current_theme_name }
    }

    /// Records the pick and gives the built-in theme of that name (the dark one for any
    /// name but `Default Light`).
    pub fn update(&mut self, message: ThemeSelectorMessage) -> (t: WarpTheme)
        ensures
            match message {
                ThemeSelectorMessage::ThemeSelected(n) => {
                    &&& final(self).selected() == n@
                    &&& final(self).names() == old(self).names()
                    &&& if n@ == "Default Light"@ {
                        t.name@ == "Default Light"@ && !t.is_dark
                            && t.colors.view() == builtin_palette(rgb(F09, F09, F09), rgb(F01, F01, F01))
                    } else {
                        t.name@ == "Default Dark"@ && t.is_dark
                            && t.colors.view() == builtin_palette(rgb(F01, F01, F01), rgb(F09, F09, F09))
                    }
                },
            },
    {
        match message {
            ThemeSelectorMessage::ThemeSelected(theme_name) => {
                let t = WarpTheme::from_name(theme_name.as_str());
                self.selected_theme = theme_name;
                t
            },
        }
    }

    /// The names offered, and the selected one.
    pub fn options(&self) -> (r: (&Vec<String>, &str))
        ensures
            r.0@ == self.names(),
            r.1@ == self.selected(),
    {
        (&self.available_themes, self.selected_theme.as_str())
    }
}

} // verus!
