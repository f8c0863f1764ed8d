//! Editing the colours of a loaded theme: pick a theme, change its colours, then keep
//! the changes (making the theme active) or drop them.
use vstd::prelude::*;
use crate::config::theme::{dark_strings, theme_strings, WarpTheme};
use crate::config::yaml_theme_manager::{converted_strings, ThemeManager};
use crate::text::owned;

verus! {

/// A change in the theme editor.
#[derive(Debug)]
pub enum ThemeEditorMessage {
    SelectTheme(String),
    /// A colour, by its name (such as `background`), got a new `#RRGGBB` value.
    EditColor(String, String),
    SaveTheme,
    CancelChanges,
    ImportThemeClicked,
    ExportThemeClicked,
}

/// Position of a colour name in `theme_strings` (the name itself is at 0), or -1.
pub open spec fn color_slot(name: Seq<char>) -> int {
    if name == "background"@ {
        1
    } else if name == "foreground"@ {
        2
    } else if name == "accent"@ {
        3
    } else if name == "border"@ {
        4
    } else if name == "command_background"@ {
        5
    } else if name == "output_background"@ {
        6
    } else {
        -1
    }
}

/// The theme editor.
pub struct ThemeEditor {
    theme_manager: ThemeManager,
    available_themes: Vec<String>,
    selected_theme_name: String,
    current_theme_config: WarpTheme,
    original_theme_config: WarpTheme,
}

impl ThemeEditor {
    /// Every loaded theme can be turned into the terminal's form.
    pub closed spec fn wf(self) -> bool {
        forall|n: Seq<char>| #[trigger] self.theme_manager.convertible(n)
    }

    pub closed spec fn manager(self) -> ThemeManager {
        self.theme_manager
    }

    pub closed spec fn names(self) -> Seq<String> {
        self.available_themes@
    }

    pub closed spec fn selected(self) -> Seq<char> {
        self.selected_theme_name@
    }

    pub closed spec fn current(self) -> Seq<Seq<char>> {
        theme_strings(self.current_theme_config)
    }

    pub closed spec fn original(self) -> Seq<Seq<char>> {
        theme_strings(self.original_theme_config)
    }

    /// The theme picker: the loaded themes' names, and the selected one.
    pub fn theme_choice(&self) -> (r: (&Vec<String>, &str))
        ensures
            r.0@ == self.names(),
            r.1@ == self.selected(),
    {
        (&self.available_themes, self.selected_theme_name.as_str())
    }

    /// The buttons under the colours, each with the message it sends: Save, Cancel,
    /// Import and Export.
    pub fn buttons(&self) -> (r: Vec<(String, ThemeEditorMessage)>)
        ensures
            r@.len() == 4,
            r@[0].0@ == "Save"@ && r@[0].1 is SaveTheme,
            r@[1].0@ == "Cancel"@ && r@[1].1 is CancelChanges,
            r@[2].0@ == "Import"@ && r@[2].1 is ImportThemeClicked,
            r@[3].0@ == "Export"@ && r@[3].1 is ExportThemeClicked,
    {
        let mut r: Vec<(String, ThemeEditorMessage)> = Vec::new();
        r.push((owned("Save"), ThemeEditorMessage::SaveTheme));
        r.push((owned("Cancel"), ThemeEditorMessage::CancelChanges));
        r.push((owned("Import"), ThemeEditorMessage::ImportThemeClicked));
        r.push((owned("Export"), ThemeEditorMessage::ExportThemeClicked));
        r
    }

    /// An editor over the manager's themes, editing the active one.
    pub fn new(theme_manager: ThemeManager) -> (e: Self)
        requires
            forall|n: Seq<char>| #[trigger] theme_manager.convertible(n),
        ensures
            e.wf(),
            e.manager() == theme_manager,
            e.current() == e.original(),
            e.selected() == e.current()[0],
            theme_manager.themes().contains_key(theme_manager.active())
                ==> e.current() == converted_strings(theme_manager.themes()[theme_manager.active()]),
            !theme_manager.themes().contains_key(theme_manager.active()) ==> e.current() == dark_strings(),
            e.names().len() == theme_manager.themes().dom().len(),
            forall|i: int| 0 <= i < e.names().len() ==> theme_manager.themes().contains_key(#[trigger] e.names()[i]@),
            forall|k: Seq<char>| theme_manager.themes().contains_key(k)
                ==> exists|i: int| 0 <= i < e.names().len() && #[trigger] e.names()[i]@ == k,
    {
        let available_themes = theme_manager.get_theme_names();
        let ghost names = available_themes@;
        proof {
            assert(theme_manager.convertible(theme_manager.active()));
        }
        let current_theme_config = theme_manager.get_active_theme();
        let selected_theme_name = current_theme_config.name.clone();
        let original_theme_config = current_theme_config.duplicate();
        let e = ThemeEditor { theme_manager, available_themes, selected_theme_name, current_theme_config, original_theme_config };
        assert(e.names() == names);
        assert forall|k: Seq<char>| e.manager().themes().contains_key(k)
            implies exists|i: int| 0 <= i < e.names().len() && #[trigger] e.names()[i]@ == k by {
            let i = choose|i: int| 0 <= i < names.len() && #[trigger] names[i]@ == k;
            assert(e.names()[i]@ == k);
        }
        e
    }

    /// Handles a change. Picking a theme that exists edits it afresh; a colour edit sets
    /// the colour of that name (an unknown name changes nothing); saving makes the edited
    /// theme's name active and keeps the edits; cancelling goes back to the kept theme.
    pub fn update(&mut self, message: ThemeEditorMessage)
        requires
            old(self).wf(),
        ensures
            final(self).wf(),
            final(self).manager().themes() == old(self).manager().themes(),
            final(self).names() == old(self).names(),
            match message {
                ThemeEditorMessage::SelectTheme(n) => if old(self).manager().themes().contains_key(n@) {
                    &&& final(self).selected() == n@
                    &&& final(self).current() == converted_strings(old(self).manager().themes()[n@])
                    &&& final(self).original() == final(self).current()
                } else {
                    final(self).selected() == old(self).selected() && final(self).current() == old(self).current()
                        && final(self).original() == old(self).original()
                },
                ThemeEditorMessage::EditColor(c, v) => {
                    &&& final(self).current() == (if color_slot(c@) >= 0 {
                        old(self).current().update(color_slot(c@), v@)
                    } else {
                        old(self).current()
                    })
                    &&& final(self).original() == old(self).original()
                    &&& final(self).selected() == old(self).selected()
                },
                ThemeEditorMessage::SaveTheme => {
                    &&& final(self).original() == old(self).current()
                    &&& final(self).current() == old(self).current()
                    &&& final(self).manager().active() == (if old(self).manager().themes().contains_key(old(self).current()[0]) {
                        old(self).current()[0]
                    } else {
                        old(self).manager().active()
                    })
                },
                ThemeEditorMessage::CancelChanges => {
                    &&& final(self).current() == old(self).original()
                    &&& final(self).original() == old(self).original()
                    &&& final(self).selected() == old(self).original()[0]
                },
                _ => final(self).current() == old(self).current() && final(self).original() == old(self).original()
                    && final(self).selected() == old(self).selected(),
            },
    {
        match message {
            ThemeEditorMessage::SelectTheme(name) => {
                proof {
                    assert(self.theme_manager.convertible(name@));
                }
                match self.theme_manager.get_theme_by_name(name.as_str()) {
                    Some(theme) => {
                        self.selected_theme_name = name;
                        self.original_theme_config = theme.duplicate();
                        self.current_theme_config = theme;
                    },
                    None => {},
                }
            },
            ThemeEditorMessage::EditColor(color_name, new_hex) => {
                let ghost before = theme_strings(self.current_theme_config);
                let n = color_name;
                if n.eq(&owned("background")) {
                    self.current_theme_config.background = new_hex;
                } else if n.eq(&owned("foreground")) {
                    self.current_theme_config.foreground = new_hex;
                } else if n.eq(&owned("accent")) {
                    self.current_theme_config.accent = new_hex;
                } else if n.eq(&owned("border")) {
                    self.current_theme_config.border = new_hex;
                } else if n.eq(&owned("command_background")) {
                    self.current_theme_config.command_background = new_hex;
                } else if n.eq(&owned("output_background")) {
                    self.current_theme_config.output_background = new_hex;
                }
                assert(theme_strings(self.current_theme_config) =~= (if color_slot(n@) >= 0 {
                    before.update(color_slot(n@), new_hex@)
                } else {
                    before
                }));
            },
            ThemeEditorMessage::SaveTheme => {
                self.theme_manager.set_active_theme(self.current_theme_config.name.as_str());
                proof {
                    assert forall|n: Seq<char>| #[trigger] self.theme_manager.convertible(n) by {
                        assert(old(self).theme_manager.convertible(n));
                    }
                }
                self.original_theme_config = self.current_theme_config.duplicate();
            },
            ThemeEditorMessage::CancelChanges => {
                self.current_theme_config = self.original_theme_config.duplicate();
                self.selected_theme_name = self.original_theme_config.name.clone();
            },
            ThemeEditorMessage::ImportThemeClicked => {},
            ThemeEditorMessage::ExportThemeClicked => {},
        }
    }

    /// The colour rows: each colour's label, name and current value.
    pub fn rows(&self) -> (r: Vec<(String, String, String)>)
        ensures
            r@.len() == 6,
            forall|i: int| 0 <= i < 6 ==> (#[trigger] r@[i]).2@ == self.current()[i + 1] && color_slot(r@[i].1@) == i + 1,
            r@.map_values(|t: (String, String, String)| t.0@) == seq![
                "Background"@, "Foreground"@, "Accent"@, "Border"@, "Command Background"@, "Output Background"@,
            ],
    {
        let t = &self.current_theme_config;
        let mut r: Vec<(String, String, String)> = Vec::new();
        r.push((owned("Background"), owned("background"), t.background.clone()));
        r.push((owned("Foreground"), owned("foreground"), t.foreground.clone()));
        r.push((owned("Accent"), owned("accent"), t.accent.clone()));
        r.push((owned("Border"), owned("border"), t.border.clone()));
        r.push((owned("Command Background"), owned("command_background"), t.command_background.clone()));
        r.push((owned("Output Background"), owned("output_background"), t.output_background.clone()));
        proof {
            reveal_strlit("background");
            reveal_strlit("foreground");
            reveal_strlit("accent");
            reveal_strlit("border");
            reveal_strlit("command_background");
            reveal_strlit("output_background");
            assert("background"@[0] != "foreground"@[0] && "background"@[0] != "accent"@[0]);
            assert("background"@[0] != "command_background"@[0] && "background"@[0] != "output_background"@[0]);
            assert("foreground"@[0] != "accent"@[0] && "foreground"@[0] != "border"@[0]);
            assert("foreground"@[0] != "command_background"@[0] && "foreground"@[0] != "output_background"@[0]);
            assert("accent"@[0] != "border"@[0] && "accent"@[0] != "command_background"@[0] && "accent"@[0] != "output_background"@[0]);
            assert("border"@[0] != "command_background"@[0] && "border"@[0] != "output_background"@[0]);
            assert("command_background"@[0] != "output_background"@[0]);
            assert("background"@.len() != "border"@.len());
        }
        assert(r@.map_values(|t: (String, String, String)| t.0@) =~= seq![
            "Background"@, "Foreground"@, "Accent"@, "Border"@, "Command Background"@, "Output Background"@,
        ]);
        r
    }
}

} // verus!
