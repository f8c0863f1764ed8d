//! Editing key bindings: changes are made to a working copy, kept on save, dropped on
//! cancel, or replaced by the defaults.
use vstd::prelude::*;
use crate::preferences::FormKeyBindings;
use crate::text::owned;

verus! {

/// A change in the editor.
#[derive(Debug)]
pub enum KeybindingEditorMessage {
    /// A binding, by its name (such as `submit_input`), got a new key combination.
    KeybindingChanged(String, String),
    SaveClicked,
    CancelClicked,
    ResetToDefaults,
}

/// The key bindings with the names the editor knows them by, in order.
pub open spec fn binding_names() -> Seq<Seq<char>> {
    seq![
        "submit_input"@, "history_up"@, "history_down"@, "clear_terminal"@, "toggle_fullscreen"@,
        "open_command_palette"@, "open_preferences"@, "open_theme_customizer"@, "open_profile_manager"@,
        "open_workflow_browser"@, "open_warp_drive"@,
    ]
}

/// The bindings' values in the order of `binding_names`.
pub open spec fn bindings_view(k: FormKeyBindings) -> Seq<Seq<char>> {
    seq![
        k.submit_input@, k.history_up@, k.history_down@, k.clear_terminal@, k.toggle_fullscreen@,
        k.open_command_palette@, k.open_preferences@, k.open_theme_customizer@, k.open_profile_manager@,
        k.open_workflow_browser@, k.open_warp_drive@,
    ]
}

/// The default bindings: the key combinations the forms suggest.
pub open spec fn default_bindings() -> Seq<Seq<char>> {
    seq![
        "Enter"@, "Up"@, "Down"@, "Ctrl+L"@, "F11"@, "Ctrl+P"@, "Ctrl+,"@, "Ctrl+T"@, "Ctrl+Shift+P"@,
        "Ctrl+W"@, "Ctrl+Shift+D"@,
    ]
}

/// The default bindings.
pub fn default_keybindings() -> (k: FormKeyBindings)
    ensures
        bindings_view(k) == default_bindings(),
{
    let k = FormKeyBindings {
        submit_input: owned("Enter"),
        history_up: owned("Up"),
        history_down: owned("Down"),
        clear_terminal: owned("Ctrl+L"),
        toggle_fullscreen: owned("F11"),
        open_command_palette: owned("Ctrl+P"),
        open_preferences: owned("Ctrl+,"),
        open_theme_customizer: owned("Ctrl+T"),
        open_profile_manager: owned("Ctrl+Shift+P"),
        open_workflow_browser: owned("Ctrl+W"),
        open_warp_drive: owned("Ctrl+Shift+D"),
    };
    assert(bindings_view(k) =~= default_bindings());
    k
}

/// Position of a binding name among `binding_names`, or -1.
pub open spec fn binding_index(name: Seq<char>) -> int {
    if name == "submit_input"@ {
        0
    } else if name == "history_up"@ {
        1
    } else if name == "history_down"@ {
        2
    } else if name == "clear_terminal"@ {
        3
    } else if name == "toggle_fullscreen"@ {
        4
    } else if name == "open_command_palette"@ {
        5
    } else if name == "open_preferences"@ {
        6
    } else if name == "open_theme_customizer"@ {
        7
    } else if name == "open_profile_manager"@ {
        8
    } else if name == "open_workflow_browser"@ {
        9
    } else if name == "open_warp_drive"@ {
        10
    } else {
        -1
    }
}

/// The bindings after setting the one of that name (an unknown name changes nothing).
pub open spec fn with_binding(b: Seq<Seq<char>>, name: Seq<char>, value: Seq<char>) -> Seq<Seq<char>> {
    if binding_index(name) >= 0 {
        b.update(binding_index(name), value)
    } else {
        b
    }
}

/// What saving asks the caller to store.
#[derive(Debug)]
pub struct SaveRequest {
    pub keybindings: FormKeyBindings,
}

/// The key binding editor.
pub struct KeybindingEditor {
    current_keybindings: FormKeyBindings,
    original_keybindings: FormKeyBindings,
}

impl KeybindingEditor {
    pub closed spec fn current(self) -> Seq<Seq<char>> {
        bindings_view(self.current_keybindings)
    }

    pub closed spec fn original(self) -> Seq<Seq<char>> {
        bindings_view(self.original_keybindings)
    }

    /// An editor over the stored bindings.
    pub fn new(keybindings: FormKeyBindings) -> (e: Self)
        ensures
            e.current() == bindings_view(keybindings),
            e.original() == bindings_view(keybindings),
    {
        let original_keybindings = keybindings.duplicate();
        KeybindingEditor { current_keybindings: keybindings, original_keybindings }
    }

    /// Handles a change. Saving asks to store the working copy (the caller reports a
    /// successful store with `saved`); cancelling goes back to the stored bindings;
    /// resetting puts the defaults in the working copy.
    pub fn update(&mut self, message: KeybindingEditorMessage) -> (r: Option<SaveRequest>)
        ensures
            final(self).original() == old(self).original(),
            match message {
                KeybindingEditorMessage::KeybindingChanged(name, value) => r is None
                    && final(self).current() == with_binding(old(self).current(), name@, value@),
                KeybindingEditorMessage::SaveClicked => (r matches Some(s) && bindings_view(s.keybindings) == old(self).current())
                    && final(self).current() == old(self).current(),
                KeybindingEditorMessage::CancelClicked => r is None && final(self).current() == old(self).original(),
                KeybindingEditorMessage::ResetToDefaults => r is None && final(self).current() == default_bindings(),
            },
    {
        match message {
            KeybindingEditorMessage::KeybindingChanged(key_name, new_value) => {
                let ghost before = bindings_view(self.current_keybindings);
                let k = &mut self.current_keybindings;
                let n = key_name;
                if n.eq(&owned("submit_input")) {
                    k.submit_input = new_value;
                } else if n.eq(&owned("history_up")) {
                    k.history_up = new_value;
                } else if n.eq(&owned("history_down")) {
                    k.history_down = new_value;
                } else if n.eq(&owned("clear_terminal")) {
                    k.clear_terminal = new_value;
                } else if n.eq(&owned("toggle_fullscreen")) {
                    k.toggle_fullscreen = new_value;
                } else if n.eq(&owned("open_command_palette")) {
                    k.open_command_palette = new_value;
                } else if n.eq(&owned("open_preferences")) {
                    k.open_preferences = new_value;
                } else if n.eq(&owned("open_theme_customizer")) {
                    k.open_theme_customizer = new_value;
                } else if n.eq(&owned("open_profile_manager")) {
                    k.open_profile_manager = new_value;
                } else if n.eq(&owned("open_workflow_browser")) {
                    k.open_workflow_browser = new_value;
                } else if n.eq(&owned("open_warp_drive")) {
                    k.open_warp_drive = new_value;
                }
                assert(bindings_view(*k) =~= with_binding(before, n@, new_value@));
                None
            },
            KeybindingEditorMessage::SaveClicked => Some(SaveRequest { keybindings: self.current_keybindings.duplicate() }),
            KeybindingEditorMessage::CancelClicked => {
                self.current_keybindings = self.original_keybindings.duplicate();
                None
            },
            KeybindingEditorMessage::ResetToDefaults => {
                self.current_keybindings = default_keybindings();
                None
            },
        }
    }

    /// Records that the working copy was stored: it becomes the bindings to go back to.
    pub fn saved(&mut self)
        ensures
            final(self).original() == old(self).current(),
            final(self).current() == old(self).current(),
    {
        self.original_keybindings = self.current_keybindings.duplicate();
    }

    /// The rows of the editor: each binding's label, name and current value.
    pub fn rows(&self) -> (r: Vec<(String, String, String)>)
        ensures
            r@.len() == 11,
            forall|i: int| 0 <= i < 11 ==> (#[trigger] r@[i]).1@ == binding_names()[i] && r@[i].2@ == self.current()[i],
            r@.map_values(|t: (String, String, String)| t.0@) == seq![
                "Submit Input"@, "History Up"@, "History Down"@, "Clear Terminal"@, "Toggle Fullscreen"@,
                "Open Command Palette"@, "Open Preferences"@, "Open Theme Customizer"@, "Open Profile Manager"@,
                "Open Workflow Browser"@, "Open Warp Drive"@,
            ],
    {
        let k = &self.current_keybindings;
        let mut r: Vec<(String, String, String)> = Vec::new();
        r.push((owned("Submit Input"), owned("submit_input"), k.submit_input.clone()));
        r.push((owned("History Up"), owned("history_up"), k.history_up.clone()));
        r.push((owned("History Down"), owned("history_down"), k.history_down.clone()));
        r.push((owned("Clear Terminal"), owned("clear_terminal"), k.clear_terminal.clone()));
        r.push((owned("Toggle Fullscreen"), owned("toggle_fullscreen"), k.toggle_fullscreen.clone()));
        r.push((owned("Open Command Palette"), owned("open_command_palette"), k.open_command_palette.clone()));
        r.push((owned("Open Preferences"), owned("open_preferences"), k.open_preferences.clone()));
        r.push((owned("Open Theme Customizer"), owned("open_theme_customizer"), k.open_theme_customizer.clone()));
        r.push((owned("Open Profile Manager"), owned("open_profile_manager"), k.open_profile_manager.clone()));
        r.push((owned("Open Workflow Browser"), owned("open_workflow_browser"), k.open_workflow_browser.clone()));
        r.push((owned("Open Warp Drive"), owned("open_warp_drive"), k.open_warp_drive.clone()));
        assert(r@.map_values(|t: (String, String, String)| t.0@) =~= seq![
            "Submit Input"@, "History Up"@, "History Down"@, "Clear Terminal"@, "Toggle Fullscreen"@,
            "Open Command Palette"@, "Open Preferences"@, "Open Theme Customizer"@, "Open Profile Manager"@,
            "Open Workflow Browser"@, "Open Warp Drive"@,
        ]);
        r
    }
}

} // verus!
