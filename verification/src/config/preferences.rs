//! User-editable preferences: key bindings, font size and feature switches.
use vstd::prelude::*;
use crate::text::owned;

verus! {

/// Key bindings of the panels.
#[derive(Debug)]
pub struct KeyBindings {
    pub open_warp_drive: String,
    pub toggle_command_palette: String,
}

impl Default for KeyBindings {
    fn default() -> (r: Self)
        ensures
            r.open_warp_drive@ == "Ctrl+Shift+D"@,
            r.toggle_command_palette@ == "Ctrl+P"@,
    {
        KeyBindings { open_warp_drive: owned("Ctrl+Shift+D"), toggle_command_palette: owned("Ctrl+P") }
    }
}

/// Preferences: key bindings, font size and user switches.
#[derive(Debug)]
pub struct Preferences {
    pub key_bindings: KeyBindings,
    pub font_size: u16,
    pub user_preferences: UserPreferences,
}

/// Feature switches and the history size.
#[derive(Debug, Clone, Copy, PartialEq, Eq, Structural)]
pub struct UserPreferences {
    pub enable_fuzzy_search: bool,
    pub enable_collaboration: bool,
    pub show_welcome_message: bool,
    pub max_history_size: usize,
    pub enable_auto_update: bool,
    pub enable_telemetry: bool,
}

impl Default for UserPreferences {
    fn default() -> (r: Self)
        ensures
            r == (UserPreferences {
                enable_fuzzy_search: true,
                enable_collaboration: false,
                show_welcome_message: true,
                max_history_size: 1000,
                enable_auto_update: true,
                enable_telemetry: true,
            }),
    {
        UserPreferences {
            enable_fuzzy_search: true,
            enable_collaboration: false,
            show_welcome_message: true,
            max_history_size: 1000,
            enable_auto_update: true,
            enable_telemetry: true,
        }
    }
}

impl Default for Preferences {
    fn default() -> (r: Self)
        ensures
            r.key_bindings.open_warp_drive@ == "Ctrl+Shift+D"@,
            r.key_bindings.toggle_command_palette@ == "Ctrl+P"@,
            r.font_size == 14,
            r.user_preferences == (UserPreferences {
                enable_fuzzy_search: true,
                enable_collaboration: false,
                show_welcome_message: true,
                max_history_size: 1000,
                enable_auto_update: true,
                enable_telemetry: true,
            }),
    {
        Preferences {
            key_bindings: KeyBindings::default(),
            font_size: 14,
            user_preferences: UserPreferences::default(),
        }
    }
}

/// Which switch a preference name denotes.
pub open spec fn set_switch(p: UserPreferences, name: Seq<char>, value: bool) -> UserPreferences {
    if name == "enable_fuzzy_search"@ {
        UserPreferences { enable_fuzzy_search: value, ..p }
    } else if name == "enable_collaboration"@ {
        UserPreferences { enable_collaboration: value, ..p }
    } else if name == "show_welcome_message"@ {
        UserPreferences { show_welcome_message: value, ..p }
    } else if name == "enable_auto_update"@ {
        UserPreferences { enable_auto_update: value, ..p }
    } else {
        p
    }
}

/// Holds the preferences and applies changes to them.
pub struct PreferencesManager {
    preferences: Preferences,
}

impl PreferencesManager {
    /// The preferences held.
    pub closed spec fn prefs(self) -> Preferences {
        self.preferences
    }

    /// A manager holding the default preferences.
    pub fn new() -> (m: Self)
        ensures
            m.prefs().font_size == 14,
            m.prefs().key_bindings.open_warp_drive@ == "Ctrl+Shift+D"@,
            m.prefs().key_bindings.toggle_command_palette@ == "Ctrl+P"@,
            m.prefs().user_preferences == (UserPreferences {
                enable_fuzzy_search: true,
                enable_collaboration: false,
                show_welcome_message: true,
                max_history_size: 1000,
                enable_auto_update: true,
                enable_telemetry: true,
            }),
    {
        PreferencesManager { preferences: Preferences::default() }
    }

    pub fn get_preferences(&self) -> (r: &Preferences)
        ensures
            *r == self.prefs(),
    {
        &self.preferences
    }

    /// Rebinds `open_warp_drive` or `toggle_command_palette`; another action name
    /// changes nothing.
    pub fn update_key_binding(&mut self, action: &str, new_binding: String)
        ensures
            final(self).prefs().key_bindings.open_warp_drive@ == if action@ == "open_warp_drive"@ {
                new_binding@
            } else {
                old(self).prefs().key_bindings.open_warp_drive@
            },
            final(self).prefs().key_bindings.toggle_command_palette@ == if action@ == "toggle_command_palette"@ {
                new_binding@
            } else {
                old(self).prefs().key_bindings.toggle_command_palette@
            },
            final(self).prefs().font_size == old(self).prefs().font_size,
            final(self).prefs().user_preferences == old(self).prefs().user_preferences,
    {
        proof {
            reveal_strlit("open_warp_drive");
            reveal_strlit("toggle_command_palette");
            assert("open_warp_drive"@.len() != "toggle_command_palette"@.len());
        }
        let a = owned(action);
        if a.eq(&owned("open_warp_drive")) {
            self.preferences.key_bindings.open_warp_drive = new_binding;
        } else if a.eq(&owned("toggle_command_palette")) {
            self.preferences.key_bindings.toggle_command_palette = new_binding;
        }
    }

    /// Sets the switch named `preference` (`enable_fuzzy_search`, `enable_collaboration`,
    /// `show_welcome_message`, `enable_auto_update`); another name changes nothing.
    pub fn update_user_preference(&mut self, preference: &str, value: bool)
        ensures
            final(self).prefs().user_preferences == set_switch(
                old(self).prefs().user_preferences,
                preference@,
                value,
            ),
            final(self).prefs().font_size == old(self).prefs().font_size,
            final(self).prefs().key_bindings == old(self).prefs().key_bindings,
    {
        let p = owned(preference);
        if p.eq(&owned("enable_fuzzy_search")) {
            self.preferences.user_preferences.enable_fuzzy_search = value;
        } else if p.eq(&owned("enable_collaboration")) {
            self.preferences.user_preferences.enable_collaboration = value;
        } else if p.eq(&owned("show_welcome_message")) {
            self.preferences.user_preferences.show_welcome_message = value;
        } else if p.eq(&owned("enable_auto_update")) {
            self.preferences.user_preferences.enable_auto_update = value;
        }
    }

    /// Sets the maximal history size.
    pub fn update_max_history_size(&mut self, size: usize)
        ensures
            final(self).prefs().user_preferences == (UserPreferences {
                max_history_size: size,
                ..old(self).prefs().user_preferences
            }),
            final(self).prefs().font_size == old(self).prefs().font_size,
            final(self).prefs().key_bindings == old(self).prefs().key_bindings,
    {
        self.preferences.user_preferences.max_history_size = size;
    }
}

} // verus!
