//! Picking and applying one of the loaded YAML themes.
use vstd::prelude::*;
use crate::config::theme::theme_strings;
use crate::config::yaml_theme_manager::{converted_strings, ThemeManager};

verus! {

/// A change in the theme picker.
#[derive(Debug)]
pub enum YamlThemeUIMessage {
    SelectTheme(String),
    ApplyTheme,
    OpenThemeCustomizer,
}

/// The theme picker.
pub struct YamlThemeUI {
    theme_manager: ThemeManager,
    available_themes: Vec<String>,
    selected_theme_name: String,
}

impl YamlThemeUI {
    pub closed spec fn manager(self) -> ThemeManager {
        self.theme_manager
    }

    pub closed spec fn names(self) -> Seq<String> {
        self.available_themes@
    }

    pub closed spec fn selected(self) -> Seq<char> {
        self.selected_theme_name@
    }

    /// A picker over the manager's themes, with the active theme's name selected.
    pub fn new(theme_manager: ThemeManager) -> (u: Self)
        requires
            theme_manager.convertible(theme_manager.active()),
        ensures
            u.manager() == theme_manager,
            u.names().len() == theme_manager.themes().dom().len(),
            forall|i: int| 0 <= i < u.names().len() ==> theme_manager.themes().contains_key(#[trigger] u.names()[i]@),
            forall|k: Seq<char>| theme_manager.themes().contains_key(k)
                ==> exists|i: int| 0 <= i < u.names().len() && #[trigger] u.names()[i]@ == k,
            theme_manager.themes().contains_key(theme_manager.active())
                ==> u.selected() == converted_strings(theme_manager.themes()[theme_manager.active()])[0],
            !theme_manager.themes().contains_key(theme_manager.active()) ==> u.selected() == "Default Dark"@,
    {
        let available_themes = theme_manager.get_theme_names();
        let active = theme_manager.get_active_theme();
        proof {
            assert(theme_strings(active)[0] == active.name@);
            reveal_strlit("Default Dark");
        }
        let ghost names = available_themes@;
        let u = YamlThemeUI { theme_manager, available_themes, selected_theme_name: active.name };
        assert(u.names() == names);
        assert forall|k: Seq<char>| u.manager().themes().contains_key(k)
            implies exists|i: int| 0 <= i < u.names().len() && #[trigger] u.names()[i]@ == k by {
            let i = choose|i: int| 0 <= i < names.len() && #[trigger] names[i]@ == k;
            assert(u.names()[i]@ == k);
        }
        u
    }

    /// Handles a change: picking records the name; applying makes the picked theme
    /// active when it exists; opening the customizer is left to the caller.
    pub fn update(&mut self, message: YamlThemeUIMessage)
        ensures
            final(self).names() == old(self).names(),
            final(self).manager().themes() == old(self).manager().themes(),
            match message {
                YamlThemeUIMessage::SelectTheme(n) => final(self).selected() == n@
                    && final(self).manager().active() == old(self).manager().active(),
                YamlThemeUIMessage::ApplyTheme => final(self).selected() == old(self).selected()
                    && final(self).manager().active() == (if old(self).manager().themes().contains_key(old(self).selected()) {
                        old(self).selected()
                    } else {
                        old(self).manager().active()
                    }),
                YamlThemeUIMessage::OpenThemeCustomizer => final(self).selected() == old(self).selected()
                    && final(self).manager().active() == old(self).manager().active(),
            },
    {
        match message {
            YamlThemeUIMessage::SelectTheme(name) => {
                self.selected_theme_name = name;
            },
            YamlThemeUIMessage::ApplyTheme => {
                self.theme_manager.set_active_theme(self.selected_theme_name.as_str());
            },
            YamlThemeUIMessage::OpenThemeCustomizer => {},
        }
    }

    /// The names offered and the selected one.
    pub fn options(&self) -> (r: (&Vec<String>, &str))
        ensures
            r.0@ == self.names(),
            r.1@ == self.selected(),
    {
        (&self.available_themes, self.selected_theme_name.as_str())
    }
}

} // verus!
