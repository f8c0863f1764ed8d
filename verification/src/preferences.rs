//! The preferences window: a form over general preferences, font, shell, key bindings
//! and prompt settings, edited field by field and handed back whole when saved.
use vstd::prelude::*;
use crate::text::{owned, parse_decimal_max, parse_unsigned, to_decimal_string, decimal_digits};

verus! {

/// A change made in the window, or a request to it.
#[derive(Debug)]
pub enum PreferencesMessage {
    ToggleVisibility,
    ToggleFuzzySearch(bool),
    ToggleCollaboration(bool),
    ToggleWelcomeMessage(bool),
    MaxHistorySizeChanged(String),
    ToggleAutoUpdate(bool),
    FontSizeChanged(String),
    FontFamilyChanged(String),
    ShellPathChanged(String),
    SubmitInputKeyChanged(String),
    HistoryUpKeyChanged(String),
    HistoryDownKeyChanged(String),
    ClearTerminalKeyChanged(String),
    ToggleFullscreenKeyChanged(String),
    OpenCommandPaletteKeyChanged(String),
    OpenPreferencesKeyChanged(String),
    OpenThemeCustomizerKeyChanged(String),
    OpenProfileManagerKeyChanged(String),
    OpenWorkflowBrowserKeyChanged(String),
    OpenWarpDriveKeyChanged(String),
    ToggleShowUser(bool),
    ToggleShowHost(bool),
    ToggleShowCwd(bool),
    ToggleShowGitStatus(bool),
    UserSymbolChanged(String),
    HostSymbolChanged(String),
    CwdSymbolChanged(String),
    GitSymbolChanged(String),
    PromptSymbolChanged(String),
    SavePreferences,
}

/// An editable field of the form.
#[derive(Debug, Clone, Copy, PartialEq, Eq, Structural)]
pub enum PrefField {
    FuzzySearch,
    Collaboration,
    WelcomeMessage,
    MaxHistorySize,
    AutoUpdate,
    FontFamily,
    FontSize,
    ShellPath,
    SubmitInput,
    HistoryUp,
    HistoryDown,
    ClearTerminal,
    ToggleFullscreen,
    OpenCommandPalette,
    OpenPreferences,
    OpenThemeCustomizer,
    OpenProfileManager,
    OpenWorkflowBrowser,
    OpenWarpDrive,
    ShowUser,
    UserSymbol,
    ShowHost,
    HostSymbol,
    ShowCwd,
    CwdSymbol,
    ShowGitStatus,
    GitSymbol,
    PromptSymbol,
}

/// What the user does to a field: flips a switch, or types a text.
#[derive(Debug)]
pub enum ControlInput {
    Switched(bool),
    Typed(String),
}

/// Which buttons the window has.
#[derive(Debug, Clone, Copy, PartialEq, Eq, Structural)]
pub enum PrefButton {
    Close,
    Save,
}

/// The general preferences the window edits.
#[derive(Debug, Clone, Copy, PartialEq, Eq, Structural)]
pub struct FormPreferences {
    pub enable_fuzzy_search: bool,
    pub enable_collaboration: bool,
    pub show_welcome_message: bool,
    pub max_history_size: usize,
    pub enable_auto_update: bool,
}

/// The key bindings the window edits.
#[derive(Debug)]
pub struct FormKeyBindings {
    pub submit_input: String,
    pub history_up: String,
    pub history_down: String,
    pub clear_terminal: String,
    pub toggle_fullscreen: String,
    pub open_command_palette: String,
    pub open_preferences: String,
    pub open_theme_customizer: String,
    pub open_profile_manager: String,
    pub open_workflow_browser: String,
    pub open_warp_drive: String,
}

impl FormKeyBindings {
    /// A copy.
    pub fn duplicate(&self) -> (r: Self)
        ensures
            r == *self,
    {
        FormKeyBindings {
            submit_input: self.submit_input.clone(),
            history_up: self.history_up.clone(),
            history_down: self.history_down.clone(),
            clear_terminal: self.clear_terminal.clone(),
            toggle_fullscreen: self.toggle_fullscreen.clone(),
            open_command_palette: self.open_command_palette.clone(),
            open_preferences: self.open_preferences.clone(),
            open_theme_customizer: self.open_theme_customizer.clone(),
            open_profile_manager: self.open_profile_manager.clone(),
            open_workflow_browser: self.open_workflow_browser.clone(),
            open_warp_drive: self.open_warp_drive.clone(),
        }
    }
}

/// The prompt settings the window edits.
#[derive(Debug)]
pub struct FormPromptSettings {
    pub show_user: bool,
    pub show_host: bool,
    pub show_cwd: bool,
    pub show_git_status: bool,
    pub user_symbol: String,
    pub host_symbol: String,
    pub cwd_symbol: String,
    pub git_symbol: String,
    pub prompt_symbol: String,
}

impl FormPromptSettings {
    /// A copy.
    pub fn duplicate(&self) -> (r: Self)
        ensures
            r == *self,
    {
        FormPromptSettings {
            show_user: self.show_user,
            show_host: self.show_host,
            show_cwd: self.show_cwd,
            show_git_status: self.show_git_status,
            user_symbol: self.user_symbol.clone(),
            host_symbol: self.host_symbol.clone(),
            cwd_symbol: self.cwd_symbol.clone(),
            git_symbol: self.git_symbol.clone(),
            prompt_symbol: self.prompt_symbol.clone(),
        }
    }
}

/// Everything the window hands back when it is saved.
#[derive(Debug)]
pub struct PreferencesSaved {
    pub preferences: FormPreferences,
    pub font_family: String,
    pub font_size: u16,
    pub shell: String,
    pub keybindings: FormKeyBindings,
    pub prompt_settings: FormPromptSettings,
}

/// The font size a saved form gives: the text read as a 16-bit number, or 16 when it is
/// not one.
pub open spec fn saved_font_size(text: Seq<char>) -> u16 {
    match parse_unsigned(text) {
        Some(v) => if v <= u16::MAX { v as u16 } else { 16 },
        None => 16,
    }
}

/// The message a field sends when the user acts on it: the message of its setting with
/// the new value; `None` when the action does not suit the field (typing into a switch,
/// or switching a text field).
pub open spec fn emitted(which: PrefField, input: ControlInput) -> Option<PreferencesMessage> {
    match (which, input) {
        (PrefField::FuzzySearch, ControlInput::Switched(b)) => Some(PreferencesMessage::ToggleFuzzySearch(b)),
        (PrefField::Collaboration, ControlInput::Switched(b)) => Some(PreferencesMessage::ToggleCollaboration(b)),
        (PrefField::WelcomeMessage, ControlInput::Switched(b)) => Some(PreferencesMessage::ToggleWelcomeMessage(b)),
        (PrefField::MaxHistorySize, ControlInput::Typed(t)) => Some(PreferencesMessage::MaxHistorySizeChanged(t)),
        (PrefField::AutoUpdate, ControlInput::Switched(b)) => Some(PreferencesMessage::ToggleAutoUpdate(b)),
        (PrefField::FontFamily, ControlInput::Typed(t)) => Some(PreferencesMessage::FontFamilyChanged(t)),
        (PrefField::FontSize, ControlInput::Typed(t)) => Some(PreferencesMessage::FontSizeChanged(t)),
        (PrefField::ShellPath, ControlInput::Typed(t)) => Some(PreferencesMessage::ShellPathChanged(t)),
        (PrefField::SubmitInput, ControlInput::Typed(t)) => Some(PreferencesMessage::SubmitInputKeyChanged(t)),
        (PrefField::HistoryUp, ControlInput::Typed(t)) => Some(PreferencesMessage::HistoryUpKeyChanged(t)),
        (PrefField::HistoryDown, ControlInput::Typed(t)) => Some(PreferencesMessage::HistoryDownKeyChanged(t)),
        (PrefField::ClearTerminal, ControlInput::Typed(t)) => Some(PreferencesMessage::ClearTerminalKeyChanged(t)),
        (PrefField::ToggleFullscreen, ControlInput::Typed(t)) => Some(PreferencesMessage::ToggleFullscreenKeyChanged(t)),
        (PrefField::OpenCommandPalette, ControlInput::Typed(t)) => Some(PreferencesMessage::OpenCommandPaletteKeyChanged(t)),
        (PrefField::OpenPreferences, ControlInput::Typed(t)) => Some(PreferencesMessage::OpenPreferencesKeyChanged(t)),
        (PrefField::OpenThemeCustomizer, ControlInput::Typed(t)) => Some(PreferencesMessage::OpenThemeCustomizerKeyChanged(t)),
        (PrefField::OpenProfileManager, ControlInput::Typed(t)) => Some(PreferencesMessage::OpenProfileManagerKeyChanged(t)),
        (PrefField::OpenWorkflowBrowser, ControlInput::Typed(t)) => Some(PreferencesMessage::OpenWorkflowBrowserKeyChanged(t)),
        (PrefField::OpenWarpDrive, ControlInput::Typed(t)) => Some(PreferencesMessage::OpenWarpDriveKeyChanged(t)),
        (PrefField::ShowUser, ControlInput::Switched(b)) => Some(PreferencesMessage::ToggleShowUser(b)),
        (PrefField::UserSymbol, ControlInput::Typed(t)) => Some(PreferencesMessage::UserSymbolChanged(t)),
        (PrefField::ShowHost, ControlInput::Switched(b)) => Some(PreferencesMessage::ToggleShowHost(b)),
        (PrefField::HostSymbol, ControlInput::Typed(t)) => Some(PreferencesMessage::HostSymbolChanged(t)),
        (PrefField::ShowCwd, ControlInput::Switched(b)) => Some(PreferencesMessage::ToggleShowCwd(b)),
        (PrefField::CwdSymbol, ControlInput::Typed(t)) => Some(PreferencesMessage::CwdSymbolChanged(t)),
        (PrefField::ShowGitStatus, ControlInput::Switched(b)) => Some(PreferencesMessage::ToggleShowGitStatus(b)),
        (PrefField::GitSymbol, ControlInput::Typed(t)) => Some(PreferencesMessage::GitSymbolChanged(t)),
        (PrefField::PromptSymbol, ControlInput::Typed(t)) => Some(PreferencesMessage::PromptSymbolChanged(t)),
        _ => None,
    }
}

/// The message a field sends when the user acts on it.
pub fn control_message(which: PrefField, input: ControlInput) -> (m: Option<PreferencesMessage>)
    ensures
        m == emitted(which, input),
{
    match (which, input) {
        (PrefField::FuzzySearch, ControlInput::Switched(b)) => Some(PreferencesMessage::ToggleFuzzySearch(b)),
        (PrefField::Collaboration, ControlInput::Switched(b)) => Some(PreferencesMessage::ToggleCollaboration(b)),
        (PrefField::WelcomeMessage, ControlInput::Switched(b)) => Some(PreferencesMessage::ToggleWelcomeMessage(b)),
        (PrefField::MaxHistorySize, ControlInput::Typed(t)) => Some(PreferencesMessage::MaxHistorySizeChanged(t)),
        (PrefField::AutoUpdate, ControlInput::Switched(b)) => Some(PreferencesMessage::ToggleAutoUpdate(b)),
        (PrefField::FontFamily, ControlInput::Typed(t)) => Some(PreferencesMessage::FontFamilyChanged(t)),
        (PrefField::FontSize, ControlInput::Typed(t)) => Some(PreferencesMessage::FontSizeChanged(t)),
        (PrefField::ShellPath, ControlInput::Typed(t)) => Some(PreferencesMessage::ShellPathChanged(t)),
        (PrefField::SubmitInput, ControlInput::Typed(t)) => Some(PreferencesMessage::SubmitInputKeyChanged(t)),
        (PrefField::HistoryUp, ControlInput::Typed(t)) => Some(PreferencesMessage::HistoryUpKeyChanged(t)),
        (PrefField::HistoryDown, ControlInput::Typed(t)) => Some(PreferencesMessage::HistoryDownKeyChanged(t)),
        (PrefField::ClearTerminal, ControlInput::Typed(t)) => Some(PreferencesMessage::ClearTerminalKeyChanged(t)),
        (PrefField::ToggleFullscreen, ControlInput::Typed(t)) => Some(PreferencesMessage::ToggleFullscreenKeyChanged(t)),
        (PrefField::OpenCommandPalette, ControlInput::Typed(t)) => Some(PreferencesMessage::OpenCommandPaletteKeyChanged(t)),
        (PrefField::OpenPreferences, ControlInput::Typed(t)) => Some(PreferencesMessage::OpenPreferencesKeyChanged(t)),
        (PrefField::OpenThemeCustomizer, ControlInput::Typed(t)) => Some(PreferencesMessage::OpenThemeCustomizerKeyChanged(t)),
        (PrefField::OpenProfileManager, ControlInput::Typed(t)) => Some(PreferencesMessage::OpenProfileManagerKeyChanged(t)),
        (PrefField::OpenWorkflowBrowser, ControlInput::Typed(t)) => Some(PreferencesMessage::OpenWorkflowBrowserKeyChanged(t)),
        (PrefField::OpenWarpDrive, ControlInput::Typed(t)) => Some(PreferencesMessage::OpenWarpDriveKeyChanged(t)),
        (PrefField::ShowUser, ControlInput::Switched(b)) => Some(PreferencesMessage::ToggleShowUser(b)),
        (PrefField::UserSymbol, ControlInput::Typed(t)) => Some(PreferencesMessage::UserSymbolChanged(t)),
        (PrefField::ShowHost, ControlInput::Switched(b)) => Some(PreferencesMessage::ToggleShowHost(b)),
        (PrefField::HostSymbol, ControlInput::Typed(t)) => Some(PreferencesMessage::HostSymbolChanged(t)),
        (PrefField::ShowCwd, ControlInput::Switched(b)) => Some(PreferencesMessage::ToggleShowCwd(b)),
        (PrefField::CwdSymbol, ControlInput::Typed(t)) => Some(PreferencesMessage::CwdSymbolChanged(t)),
        (PrefField::ShowGitStatus, ControlInput::Switched(b)) => Some(PreferencesMessage::ToggleShowGitStatus(b)),
        (PrefField::GitSymbol, ControlInput::Typed(t)) => Some(PreferencesMessage::GitSymbolChanged(t)),
        (PrefField::PromptSymbol, ControlInput::Typed(t)) => Some(PreferencesMessage::PromptSymbolChanged(t)),
        _ => None,
    }
}

/// The message a button sends: closing toggles visibility, saving saves.
pub fn button_message(button: PrefButton) -> (m: PreferencesMessage)
    ensures
        m == (match button {
            PrefButton::Close => PreferencesMessage::ToggleVisibility,
            PrefButton::Save => PreferencesMessage::SavePreferences,
        }),
{
    match button {
        PrefButton::Close => PreferencesMessage::ToggleVisibility,
        PrefButton::Save => PreferencesMessage::SavePreferences,
    }
}

/// What a field shows: a switch's state or a text.
pub enum ControlValue {
    On(bool),
    Text(Seq<char>),
}

/// What the field `f` of the window shows.
pub open spec fn shown(w: PreferencesWindow, f: PrefField) -> ControlValue {
    match f {
        PrefField::FuzzySearch => ControlValue::On(w.prefs().enable_fuzzy_search),
        PrefField::Collaboration => ControlValue::On(w.prefs().enable_collaboration),
        PrefField::WelcomeMessage => ControlValue::On(w.prefs().show_welcome_message),
        PrefField::MaxHistorySize => ControlValue::Text(decimal_digits(w.prefs().max_history_size as nat)),
        PrefField::AutoUpdate => ControlValue::On(w.prefs().enable_auto_update),
        PrefField::FontFamily => ControlValue::Text(w.family()),
        PrefField::FontSize => ControlValue::Text(w.size_text()),
        PrefField::ShellPath => ControlValue::Text(w.shell_path()),
        PrefField::SubmitInput => ControlValue::Text(w.keys().submit_input@),
        PrefField::HistoryUp => ControlValue::Text(w.keys().history_up@),
        PrefField::HistoryDown => ControlValue::Text(w.keys().history_down@),
        PrefField::ClearTerminal => ControlValue::Text(w.keys().clear_terminal@),
        PrefField::ToggleFullscreen => ControlValue::Text(w.keys().toggle_fullscreen@),
        PrefField::OpenCommandPalette => ControlValue::Text(w.keys().open_command_palette@),
        PrefField::OpenPreferences => ControlValue::Text(w.keys().open_preferences@),
        PrefField::OpenThemeCustomizer => ControlValue::Text(w.keys().open_theme_customizer@),
        PrefField::OpenProfileManager => ControlValue::Text(w.keys().open_profile_manager@),
        PrefField::OpenWorkflowBrowser => ControlValue::Text(w.keys().open_workflow_browser@),
        PrefField::OpenWarpDrive => ControlValue::Text(w.keys().open_warp_drive@),
        PrefField::ShowUser => ControlValue::On(w.prompt().show_user),
        PrefField::UserSymbol => ControlValue::Text(w.prompt().user_symbol@),
        PrefField::ShowHost => ControlValue::On(w.prompt().show_host),
        PrefField::HostSymbol => ControlValue::Text(w.prompt().host_symbol@),
        PrefField::ShowCwd => ControlValue::On(w.prompt().show_cwd),
        PrefField::CwdSymbol => ControlValue::Text(w.prompt().cwd_symbol@),
        PrefField::ShowGitStatus => ControlValue::On(w.prompt().show_git_status),
        PrefField::GitSymbol => ControlValue::Text(w.prompt().git_symbol@),
        PrefField::PromptSymbol => ControlValue::Text(w.prompt().prompt_symbol@),
    }
}

/// What a field shows after the user gives it `input`: the new switch state or text,
/// except that a history size that is not a number below the machine's limit leaves
/// the shown size as it was, and a number shows in its decimal form.
pub open spec fn shown_after(w: PreferencesWindow, f: PrefField, input: ControlInput) -> ControlValue {
    match input {
        ControlInput::Switched(b) => ControlValue::On(b),
        ControlInput::Typed(t) => if f == PrefField::MaxHistorySize {
            match parse_unsigned(t@) {
                Some(v) => if v <= usize::MAX { ControlValue::Text(decimal_digits(v)) } else { shown(w, f) },
                None => shown(w, f),
            }
        } else {
            ControlValue::Text(t@)
        },
    }
}

/// The preferences window.
pub struct PreferencesWindow {
    is_visible: bool,
    preferences: FormPreferences,
    font_family: String,
    font_size: String,
    shell: String,
    keybindings: FormKeyBindings,
    prompt_settings: FormPromptSettings,
}

/// One field of the form: its label, and either a switch or a text input (its value and
/// placeholder).
#[derive(Debug)]
pub enum FormField {
    Toggle { field: PrefField, label: String, on: bool },
    Text { field: PrefField, label: String, value: String, placeholder: String },
}

/// A titled section of the form.
#[derive(Debug)]
pub struct FormSection {
    pub title: String,
    pub fields: Vec<FormField>,
}

/// A form field as values.
pub enum FieldView {
    Toggle(PrefField, Seq<char>, bool),
    Text(PrefField, Seq<char>, Seq<char>, Seq<char>),
}

pub open spec fn field_view(f: FormField) -> FieldView {
    match f {
        FormField::Toggle { field, label, on } => FieldView::Toggle(field, label@, on),
        FormField::Text { field, label, value, placeholder } => FieldView::Text(field, label@, value@, placeholder@),
    }
}

pub open spec fn section_views(v: Seq<FormSection>) -> Seq<(Seq<char>, Seq<FieldView>)> {
    v.map_values(|s: FormSection| (s.title@, s.fields@.map_values(|f: FormField| field_view(f))))
}

fn toggle(which: PrefField, label: &str, on: bool) -> (f: FormField)
    ensures
        field_view(f) == FieldView::Toggle(which, label@, on),
{
    FormField::Toggle { field: which, label: owned(label), on }
}

fn field(which: PrefField, label: &str, value: &str, placeholder: &str) -> (f: FormField)
    ensures
        field_view(f) == FieldView::Text(which, label@, value@, placeholder@),
{
    FormField::Text { field: which, label: owned(label), value: owned(value), placeholder: owned(placeholder) }
}

impl PreferencesWindow {
    pub closed spec fn visible(self) -> bool {
        self.is_visible
    }

    pub closed spec fn prefs(self) -> FormPreferences {
        self.preferences
    }

    pub closed spec fn family(self) -> Seq<char> {
        self.font_family@
    }

    pub closed spec fn size_text(self) -> Seq<char> {
        self.font_size@
    }

    pub closed spec fn shell_path(self) -> Seq<char> {
        self.shell@
    }

    pub closed spec fn keys(self) -> FormKeyBindings {
        self.keybindings
    }

    pub closed spec fn prompt(self) -> FormPromptSettings {
        self.prompt_settings
    }

    /// A hidden window over the given settings; the font size is shown as text.
    pub fn new(
        preferences: FormPreferences,
        font_family: String,
        font_size: u16,
        shell: String,
        keybindings: FormKeyBindings,
        prompt_settings: FormPromptSettings,
    ) -> (w: Self)
        ensures
            !w.visible(),
            w.prefs() == preferences,
            w.family() == font_family@,
            w.size_text() == decimal_digits(font_size as nat),
            w.shell_path() == shell@,
            w.keys() == keybindings,
            w.prompt() == prompt_settings,
    {
        PreferencesWindow {
            is_visible: false,
            preferences,
            font_family,
            font_size: to_decimal_string(font_size as u64),
            shell,
            keybindings,
            prompt_settings,
        }
    }

    pub fn show(&mut self)
        ensures
            final(self).visible(),
            final(self).prefs() == old(self).prefs(),
            final(self).keys() == old(self).keys(),
            final(self).prompt() == old(self).prompt(),
            final(self).family() == old(self).family(),
            final(self).size_text() == old(self).size_text(),
            final(self).shell_path() == old(self).shell_path(),
    {
        self.is_visible = true;
    }

    /// Hides the window.
    pub fn close(&mut self)
        ensures
            !final(self).visible(),
            final(self).prefs() == old(self).prefs(),
            final(self).keys() == old(self).keys(),
            final(self).prompt() == old(self).prompt(),
            final(self).family() == old(self).family(),
            final(self).size_text() == old(self).size_text(),
            final(self).shell_path() == old(self).shell_path(),
    {
        self.is_visible = false;
    }

    pub fn is_visible(&self) -> (r: bool)
        ensures
            r == self.visible(),
    {
        self.is_visible
    }

    /// The form as drawn: its sections, in order, each with its fields' labels, values
    /// and placeholders.
    pub closed spec fn form(self) -> Seq<(Seq<char>, Seq<FieldView>)> {
        let p = self.preferences;
        let k = self.keybindings;
        let q = self.prompt_settings;
        seq![
            ("General Preferences"@, seq![
                FieldView::Toggle(PrefField::FuzzySearch, "Enable Fuzzy Search"@, p.enable_fuzzy_search),
                FieldView::Toggle(PrefField::Collaboration, "Enable Collaboration"@, p.enable_collaboration),
                FieldView::Toggle(PrefField::WelcomeMessage, "Show Welcome Message"@, p.show_welcome_message),
                FieldView::Text(PrefField::MaxHistorySize, "Max History Size:"@, decimal_digits(p.max_history_size as nat), "1000"@),
                FieldView::Toggle(PrefField::AutoUpdate, "Enable Auto Update"@, p.enable_auto_update),
            ]),
            ("Font Settings"@, seq![
                FieldView::Text(PrefField::FontFamily, "Font Family:"@, self.font_family@, "Fira Code"@),
                FieldView::Text(PrefField::FontSize, "Font Size:"@, self.font_size@, "16"@),
            ]),
            ("Shell Settings"@, seq![FieldView::Text(PrefField::ShellPath, "Shell Path:"@, self.shell@, "/bin/bash"@)]),
            ("Keybindings"@, seq![
                FieldView::Text(PrefField::SubmitInput, "Submit Input:"@, k.submit_input@, "Enter"@),
                FieldView::Text(PrefField::HistoryUp, "History Up:"@, k.history_up@, "Up"@),
                FieldView::Text(PrefField::HistoryDown, "History Down:"@, k.history_down@, "Down"@),
                FieldView::Text(PrefField::ClearTerminal, "Clear Terminal:"@, k.clear_terminal@, "Ctrl+L"@),
                FieldView::Text(PrefField::ToggleFullscreen, "Toggle Fullscreen:"@, k.toggle_fullscreen@, "F11"@),
                FieldView::Text(PrefField::OpenCommandPalette, "Open Command Palette:"@, k.open_command_palette@, "Ctrl+P"@),
                FieldView::Text(PrefField::OpenPreferences, "Open Preferences:"@, k.open_preferences@, "Ctrl+,"@),
                FieldView::Text(PrefField::OpenThemeCustomizer, "Open Theme Customizer:"@, k.open_theme_customizer@, "Ctrl+T"@),
                FieldView::Text(PrefField::OpenProfileManager, "Open Profile Manager:"@, k.open_profile_manager@, "Ctrl+Shift+P"@),
                FieldView::Text(PrefField::OpenWorkflowBrowser, "Open Workflow Browser:"@, k.open_workflow_browser@, "Ctrl+W"@),
                FieldView::Text(PrefField::OpenWarpDrive, "Open Warp Drive:"@, k.open_warp_drive@, "Ctrl+Shift+D"@),
            ]),
            ("Prompt Settings"@, seq![
                FieldView::Toggle(PrefField::ShowUser, "Show User"@, q.show_user),
                FieldView::Text(PrefField::UserSymbol, "User Symbol:"@, q.user_symbol@, "\u{1F464}"@),
                FieldView::Toggle(PrefField::ShowHost, "Show Host"@, q.show_host),
                FieldView::Text(PrefField::HostSymbol, "Host Symbol:"@, q.host_symbol@, "\u{1F4BB}"@),
                FieldView::Toggle(PrefField::ShowCwd, "Show CWD"@, q.show_cwd),
                FieldView::Text(PrefField::CwdSymbol, "CWD Symbol:"@, q.cwd_symbol@, "\u{1F4C1}"@),
                FieldView::Toggle(PrefField::ShowGitStatus, "Show Git Status"@, q.show_git_status),
                FieldView::Text(PrefField::GitSymbol, "Git Symbol:"@, q.git_symbol@, "\u{1F33F}"@),
                FieldView::Text(PrefField::PromptSymbol, "Prompt Symbol:"@, q.prompt_symbol@, "\u{276F}"@),
            ]),
        ]
    }

    /// The sections of the form, as drawn.
    pub fn form_sections(&self) -> (r: Vec<FormSection>)
        ensures
            section_views(r@) == self.form(),
    {
        let p = self.preferences;
        let k = &self.keybindings;
        let q = &self.prompt_settings;
        let mut general: Vec<FormField> = Vec::new();
        general.push(toggle(PrefField::FuzzySearch, "Enable Fuzzy Search", p.enable_fuzzy_search));
        general.push(toggle(PrefField::Collaboration, "Enable Collaboration", p.enable_collaboration));
        general.push(toggle(PrefField::WelcomeMessage, "Show Welcome Message", p.show_welcome_message));
        let hist = to_decimal_string(p.max_history_size as u64);
        general.push(field(PrefField::MaxHistorySize, "Max History Size:", hist.as_str(), "1000"));
        general.push(toggle(PrefField::AutoUpdate, "Enable Auto Update", p.enable_auto_update));
        let mut font: Vec<FormField> = Vec::new();
        font.push(field(PrefField::FontFamily, "Font Family:", self.font_family.as_str(), "Fira Code"));
        font.push(field(PrefField::FontSize, "Font Size:", self.font_size.as_str(), "16"));
        let mut shell: Vec<FormField> = Vec::new();
        shell.push(field(PrefField::ShellPath, "Shell Path:", self.shell.as_str(), "/bin/bash"));
        let mut keys: Vec<FormField> = Vec::new();
        keys.push(field(PrefField::SubmitInput, "Submit Input:", k.submit_input.as_str(), "Enter"));
        keys.push(field(PrefField::HistoryUp, "History Up:", k.history_up.as_str(), "Up"));
        keys.push(field(PrefField::HistoryDown, "History Down:", k.history_down.as_str(), "Down"));
        keys.push(field(PrefField::ClearTerminal, "Clear Terminal:", k.clear_terminal.as_str(), "Ctrl+L"));
        keys.push(field(PrefField::ToggleFullscreen, "Toggle Fullscreen:", k.toggle_fullscreen.as_str(), "F11"));
        keys.push(field(PrefField::OpenCommandPalette, "Open Command Palette:", k.open_command_palette.as_str(), "Ctrl+P"));
        keys.push(field(PrefField::OpenPreferences, "Open Preferences:", k.open_preferences.as_str(), "Ctrl+,"));
        keys.push(field(PrefField::OpenThemeCustomizer, "Open Theme Customizer:", k.open_theme_customizer.as_str(), "Ctrl+T"));
        keys.push(field(PrefField::OpenProfileManager, "Open Profile Manager:", k.open_profile_manager.as_str(), "Ctrl+Shift+P"));
        keys.push(field(PrefField::OpenWorkflowBrowser, "Open Workflow Browser:", k.open_workflow_browser.as_str(), "Ctrl+W"));
        keys.push(field(PrefField::OpenWarpDrive, "Open Warp Drive:", k.open_warp_drive.as_str(), "Ctrl+Shift+D"));
        let mut prompt: Vec<FormField> = Vec::new();
        prompt.push(toggle(PrefField::ShowUser, "Show User", q.show_user));
        prompt.push(field(PrefField::UserSymbol, "User Symbol:", q.user_symbol.as_str(), "\u{1F464}"));
        prompt.push(toggle(PrefField::ShowHost, "Show Host", q.show_host));
        prompt.push(field(PrefField::HostSymbol, "Host Symbol:", q.host_symbol.as_str(), "\u{1F4BB}"));
        prompt.push(toggle(PrefField::ShowCwd, "Show CWD", q.show_cwd));
        prompt.push(field(PrefField::CwdSymbol, "CWD Symbol:", q.cwd_symbol.as_str(), "\u{1F4C1}"));
        prompt.push(toggle(PrefField::ShowGitStatus, "Show Git Status", q.show_git_status));
        prompt.push(field(PrefField::GitSymbol, "Git Symbol:", q.git_symbol.as_str(), "\u{1F33F}"));
        prompt.push(field(PrefField::PromptSymbol, "Prompt Symbol:", q.prompt_symbol.as_str(), "\u{276F}"));
        let ghost f = self.form();
        assert(general@.map_values(|x: FormField| field_view(x)) =~= f[0].1);
        assert(font@.map_values(|x: FormField| field_view(x)) =~= f[1].1);
        assert(shell@.map_values(|x: FormField| field_view(x)) =~= f[2].1);
        assert(keys@.map_values(|x: FormField| field_view(x)) =~= f[3].1);
        assert(prompt@.map_values(|x: FormField| field_view(x)) =~= f[4].1);
        let mut r: Vec<FormSection> = Vec::new();
        r.push(FormSection { title: owned("General Preferences"), fields: general });
        r.push(FormSection { title: owned("Font Settings"), fields: font });
        r.push(FormSection { title: owned("Shell Settings"), fields: shell });
        r.push(FormSection { title: owned("Keybindings"), fields: keys });
        r.push(FormSection { title: owned("Prompt Settings"), fields: prompt });
        assert(section_views(r@) =~= f);
        r
    }

    /// Applies a change. Each message sets the one setting it names (a history size that
    /// is not a number is ignored); toggling flips visibility; saving hands back every
    /// setting, the font size read as a number (16 when it is not one).
    pub fn update(&mut self, message: PreferencesMessage) -> (r: Option<PreferencesSaved>)
        ensures
            match message {
                PreferencesMessage::SavePreferences => r matches Some(s) && {
                    &&& s.preferences == old(self).prefs()
                    &&& s.font_family@ == old(self).family()
                    &&& s.font_size == saved_font_size(old(self).size_text())
                    &&& s.shell@ == old(self).shell_path()
                    &&& s.keybindings == old(self).keys()
                    &&& s.prompt_settings == old(self).prompt()
                },
                _ => r is None,
            },
            after(*old(self), *final(self), message),
    {
        match message {
            PreferencesMessage::ToggleVisibility => {
                self.is_visible = !self.is_visible;
                None
            },
            PreferencesMessage::ToggleFuzzySearch(b) => {
                self.preferences.enable_fuzzy_search = b;
                None
            },
            PreferencesMessage::ToggleCollaboration(b) => {
                self.preferences.enable_collaboration = b;
                None
            },
            PreferencesMessage::ToggleWelcomeMessage(b) => {
                self.preferences.show_welcome_message = b;
                None
            },
            PreferencesMessage::MaxHistorySizeChanged(s) => {
                match parse_decimal_max(s.as_str(), usize::MAX as u64) {
                    Some(v) => {
                        self.preferences.max_history_size = v as usize;
                    },
                    None => {},
                }
                None
            },
            PreferencesMessage::ToggleAutoUpdate(b) => {
                self.preferences.enable_auto_update = b;
                None
            },
            PreferencesMessage::FontSizeChanged(s) => {
                self.font_size = s;
                None
            },
            PreferencesMessage::FontFamilyChanged(s) => {
                self.font_family = s;
                None
            },
            PreferencesMessage::ShellPathChanged(s) => {
                self.shell = s;
                None
            },
            PreferencesMessage::SubmitInputKeyChanged(s) => {
                self.keybindings.submit_input = s;
                None
            },
            PreferencesMessage::HistoryUpKeyChanged(s) => {
                self.keybindings.history_up = s;
                None
            },
            PreferencesMessage::HistoryDownKeyChanged(s) => {
                self.keybindings.history_down = s;
                None
            },
            PreferencesMessage::ClearTerminalKeyChanged(s) => {
                self.keybindings.clear_terminal = s;
                None
            },
            PreferencesMessage::ToggleFullscreenKeyChanged(s) => {
                self.keybindings.toggle_fullscreen = s;
                None
            },
            PreferencesMessage::OpenCommandPaletteKeyChanged(s) => {
                self.keybindings.open_command_palette = s;
                None
            },
            PreferencesMessage::OpenPreferencesKeyChanged(s) => {
                self.keybindings.open_preferences = s;
                None
            },
            PreferencesMessage::OpenThemeCustomizerKeyChanged(s) => {
                self.keybindings.open_theme_customizer = s;
                None
            },
            PreferencesMessage::OpenProfileManagerKeyChanged(s) => {
                self.keybindings.open_profile_manager = s;
                None
            },
            PreferencesMessage::OpenWorkflowBrowserKeyChanged(s) => {
                self.keybindings.open_workflow_browser = s;
                None
            },
            PreferencesMessage::OpenWarpDriveKeyChanged(s) => {
                self.keybindings.open_warp_drive = s;
                None
            },
            PreferencesMessage::ToggleShowUser(b) => {
                self.prompt_settings.show_user = b;
                None
            },
            PreferencesMessage::ToggleShowHost(b) => {
                self.prompt_settings.show_host = b;
                None
            },
            PreferencesMessage::ToggleShowCwd(b) => {
                self.prompt_settings.show_cwd = b;
                None
            },
            PreferencesMessage::ToggleShowGitStatus(b) => {
                self.prompt_settings.show_git_status = b;
                None
            },
            PreferencesMessage::UserSymbolChanged(s) => {
                self.prompt_settings.user_symbol = s;
                None
            },
            PreferencesMessage::HostSymbolChanged(s) => {
                self.prompt_settings.host_symbol = s;
                None
            },
            PreferencesMessage::CwdSymbolChanged(s) => {
                self.prompt_settings.cwd_symbol = s;
                None
            },
            PreferencesMessage::GitSymbolChanged(s) => {
                self.prompt_settings.git_symbol = s;
                None
            },
            PreferencesMessage::PromptSymbolChanged(s) => {
                self.prompt_settings.prompt_symbol = s;
                None
            },
            PreferencesMessage::SavePreferences => {
                let font_size = match parse_decimal_max(self.font_size.as_str(), 65535) {
                    Some(v) => v as u16,
                    None => 16u16,
                };
                Some(
                    PreferencesSaved {
                        preferences: self.preferences,
                        font_family: self.font_family.clone(),
                        font_size,
                        shell: self.shell.clone(),
                        keybindings: self.keybindings.duplicate(),
                        prompt_settings: self.prompt_settings.duplicate(),
                    },
                )
            },
        }
    }
}

/// `n` is the window `o` after the message: visibility flips on a toggle, each other
/// message sets the one setting it names (a history size that is not a number is
/// ignored), and nothing else changes.
pub open spec fn after(o: PreferencesWindow, n: PreferencesWindow, message: PreferencesMessage) -> bool {
    &&& n.visible() == (if message is ToggleVisibility { !o.visible() } else { o.visible() })
    &&& n.prefs() == (match message {
        PreferencesMessage::ToggleFuzzySearch(b) => FormPreferences { enable_fuzzy_search: b, ..o.prefs() },
        PreferencesMessage::ToggleCollaboration(b) => FormPreferences { enable_collaboration: b, ..o.prefs() },
        PreferencesMessage::ToggleWelcomeMessage(b) => FormPreferences { show_welcome_message: b, ..o.prefs() },
        PreferencesMessage::ToggleAutoUpdate(b) => FormPreferences { enable_auto_update: b, ..o.prefs() },
        PreferencesMessage::MaxHistorySizeChanged(s) => match parse_unsigned(s@) {
            Some(v) => if v <= usize::MAX {
                FormPreferences { max_history_size: v as usize, ..o.prefs() }
            } else {
                o.prefs()
            },
            None => o.prefs(),
        },
        _ => o.prefs(),
    })
    &&& n.family() == (match message {
        PreferencesMessage::FontFamilyChanged(s) => s@,
        _ => o.family(),
    })
    &&& n.size_text() == (match message {
        PreferencesMessage::FontSizeChanged(s) => s@,
        _ => o.size_text(),
    })
    &&& n.shell_path() == (match message {
        PreferencesMessage::ShellPathChanged(s) => s@,
        _ => o.shell_path(),
    })
    &&& n.keys() == (match message {
        PreferencesMessage::SubmitInputKeyChanged(s) => FormKeyBindings { submit_input: s, ..o.keys() },
        PreferencesMessage::HistoryUpKeyChanged(s) => FormKeyBindings { history_up: s, ..o.keys() },
        PreferencesMessage::HistoryDownKeyChanged(s) => FormKeyBindings { history_down: s, ..o.keys() },
        PreferencesMessage::ClearTerminalKeyChanged(s) => FormKeyBindings { clear_terminal: s, ..o.keys() },
        PreferencesMessage::ToggleFullscreenKeyChanged(s) => FormKeyBindings { toggle_fullscreen: s, ..o.keys() },
        PreferencesMessage::OpenCommandPaletteKeyChanged(s) => FormKeyBindings { open_command_palette: s, ..o.keys() },
        PreferencesMessage::OpenPreferencesKeyChanged(s) => FormKeyBindings { open_preferences: s, ..o.keys() },
        PreferencesMessage::OpenThemeCustomizerKeyChanged(s) => FormKeyBindings { open_theme_customizer: s, ..o.keys() },
        PreferencesMessage::OpenProfileManagerKeyChanged(s) => FormKeyBindings { open_profile_manager: s, ..o.keys() },
        PreferencesMessage::OpenWorkflowBrowserKeyChanged(s) => FormKeyBindings { open_workflow_browser: s, ..o.keys() },
        PreferencesMessage::OpenWarpDriveKeyChanged(s) => FormKeyBindings { open_warp_drive: s, ..o.keys() },
        _ => o.keys(),
    })
    &&& n.prompt() == (match message {
        PreferencesMessage::ToggleShowUser(b) => FormPromptSettings { show_user: b, ..o.prompt() },
        PreferencesMessage::ToggleShowHost(b) => FormPromptSettings { show_host: b, ..o.prompt() },
        PreferencesMessage::ToggleShowCwd(b) => FormPromptSettings { show_cwd: b, ..o.prompt() },
        PreferencesMessage::ToggleShowGitStatus(b) => FormPromptSettings { show_git_status: b, ..o.prompt() },
        PreferencesMessage::UserSymbolChanged(s) => FormPromptSettings { user_symbol: s, ..o.prompt() },
        PreferencesMessage::HostSymbolChanged(s) => FormPromptSettings { host_symbol: s, ..o.prompt() },
        PreferencesMessage::CwdSymbolChanged(s) => FormPromptSettings { cwd_symbol: s, ..o.prompt() },
        PreferencesMessage::GitSymbolChanged(s) => FormPromptSettings { git_symbol: s, ..o.prompt() },
        PreferencesMessage::PromptSymbolChanged(s) => FormPromptSettings { prompt_symbol: s, ..o.prompt() },
        _ => o.prompt(),
    })
}

/// Acting on a field with an input that suits it sends a message after which that field
/// shows the new value (a history size as its parsed number) and every other field, and
/// the window's visibility, stay as they were.
pub proof fn law_control_sets_its_field(o: PreferencesWindow, n: PreferencesWindow, f: PrefField, input: ControlInput)
    requires
        emitted(f, input) is Some,
        after(o, n, emitted(f, input)->0),
    ensures
        shown(n, f) == shown_after(o, f, input),
        forall|g: PrefField| g != f ==> #[trigger] shown(n, g) == shown(o, g),
        n.visible() == o.visible(),
{
}

/// The value a form entry shows is what its field shows.
pub open spec fn entry_matches(w: PreferencesWindow, e: FieldView) -> bool {
    match e {
        FieldView::Toggle(f, _, on) => shown(w, f) == ControlValue::On(on),
        FieldView::Text(f, _, v, _) => shown(w, f) == ControlValue::Text(v),
    }
}

/// Every entry of the drawn form shows the current value of the field it stands for.
pub proof fn law_form_shows_fields(w: PreferencesWindow)
    ensures
        forall|i: int, j: int| 0 <= i < w.form().len() && 0 <= j < w.form()[i].1.len()
            ==> entry_matches(w, #[trigger] w.form()[i].1[j]),
{
}

} // verus!
