//! The terminal's configuration: theme, fonts, shell, key bindings, preferences,
//! per-theme colour overrides and prompt settings.
pub mod preferences;
pub mod theme;
pub mod yaml_theme;
pub mod yaml_theme_manager;

use vstd::prelude::*;
use crate::table::{Duplicate, Table};
use crate::text::{copy_strings, owned, string_views};

verus! {

/// How the prompt is drawn.
#[derive(Debug, Clone, Copy, PartialEq, Eq, Structural)]
pub enum PromptStyle {
    Warp,
    Shell,
}

impl Default for PromptStyle {
    fn default() -> (r: Self)
        ensures
            r == PromptStyle::Warp,
    {
        PromptStyle::Warp
    }
}

/// Prompt settings: its style, whether commands go on the prompt's line, and the
/// context chips shown (such as `cwd`, `git`, `kubernetes`, `time`).
#[derive(Debug)]
pub struct PromptSettings {
    pub style: PromptStyle,
    pub same_line_prompt: bool,
    pub context_chips: Vec<String>,
}

impl Default for PromptSettings {
    fn default() -> (r: Self)
        ensures
            r.style == PromptStyle::Warp,
            !r.same_line_prompt,
            string_views(r.context_chips@) == seq!["cwd"@, "git"@, "time"@],
    {
        let mut chips: Vec<String> = Vec::new();
        chips.push(owned("cwd"));
        chips.push(owned("git"));
        chips.push(owned("time"));
        let r = PromptSettings { style: PromptStyle::Warp, same_line_prompt: false, context_chips: chips };
        assert(string_views(r.context_chips@) =~= seq!["cwd"@, "git"@, "time"@]);
        r
    }
}

/// The whole configuration.
#[derive(Debug)]
pub struct WarpConfig {
    pub theme: String,
    pub font_size: u16,
    pub font_family: String,
    pub shell: String,
    pub startup_commands: Vec<String>,
    pub keybindings: KeyBindings,
    pub preferences: UserPreferences,
    pub custom_themes: Table<String, CustomThemeOverrides>,
    pub prompt: PromptSettings,
}

/// General preferences. The three fractional settings are single-precision numbers
/// held by their IEEE-754 bit patterns (`f32::to_bits`).
#[derive(Debug)]
pub struct UserPreferences {
    pub auto_save_session: bool,
    pub show_timestamps: bool,
    pub enable_fuzzy_search: bool,
    pub max_history_size: usize,
    pub scroll_sensitivity: u32,
    pub animation_speed: u32,
    pub blur_background: bool,
    pub transparency: u32,
    pub cursor_style: CursorStyle,
    pub tab_behavior: TabBehavior,
    pub notification_settings: NotificationSettings,
    pub performance: PerformanceSettings,
}

/// The bit pattern of the single-precision number 1.0.
pub const F32_ONE_BITS: u32 = 0x3F80_0000u32;

/// Colour overrides for one theme; `None` keeps the theme's own colour.
#[derive(Debug)]
pub struct CustomThemeOverrides {
    pub accent: Option<String>,
    pub background: Option<String>,
    pub foreground: Option<String>,
    pub terminal_colors: Option<TerminalColorOverrides>,
    pub ui_elements: Option<UiElementColors>,
}

/// Overrides of the normal and bright terminal palettes.
#[derive(Debug)]
pub struct TerminalColorOverrides {
    pub bright: Option<ColorPaletteOverrides>,
    pub normal: Option<ColorPaletteOverrides>,
}

/// Overrides of the eight terminal colours.
#[derive(Debug)]
pub struct ColorPaletteOverrides {
    pub black: Option<String>,
    pub red: Option<String>,
    pub green: Option<String>,
    pub yellow: Option<String>,
    pub blue: Option<String>,
    pub magenta: Option<String>,
    pub cyan: Option<String>,
    pub white: Option<String>,
}

/// Overrides of interface element colours.
#[derive(Debug)]
pub struct UiElementColors {
    pub button_background: Option<String>,
    pub button_hover: Option<String>,
    pub input_background: Option<String>,
    pub border_color: Option<String>,
    pub selection_color: Option<String>,
    pub error_color: Option<String>,
    pub warning_color: Option<String>,
    pub success_color: Option<String>,
}

/// Key bindings of the terminal's actions.
#[derive(Debug)]
pub struct KeyBindings {
    pub new_tab: String,
    pub close_tab: String,
    pub next_tab: String,
    pub prev_tab: String,
    pub clear_screen: String,
    pub copy: String,
    pub paste: String,
    pub search: String,
    pub preferences: String,
    pub theme_selector: String,
}

/// Shape of the cursor.
#[derive(Debug, Clone, Copy, PartialEq, Eq, Structural)]
pub enum CursorStyle {
    Block,
    Underline,
    Beam,
}

/// Tab behaviour.
#[derive(Debug)]
pub struct TabBehavior {
    pub close_on_exit: bool,
    pub confirm_close: bool,
    pub new_tab_directory: String,
}

/// Notification settings.
#[derive(Debug, Clone, Copy, PartialEq, Eq, Structural)]
pub struct NotificationSettings {
    pub enable_notifications: bool,
    pub command_completion: bool,
    pub error_notifications: bool,
    pub sound_enabled: bool,
}

/// Performance settings.
#[derive(Debug, Clone, Copy, PartialEq, Eq, Structural)]
pub struct PerformanceSettings {
    pub max_fps: u32,
    pub gpu_acceleration: bool,
    pub memory_limit_mb: usize,
    pub lazy_rendering: bool,
    pub buffer_size: usize,
}

impl Default for TabBehavior {
    fn default() -> (r: Self)
        ensures
            r.close_on_exit,
            !r.confirm_close,
            r.new_tab_directory@ == "~"@,
    {
        TabBehavior { close_on_exit: true, confirm_close: false, new_tab_directory: owned("~") }
    }
}

impl Default for NotificationSettings {
    fn default() -> (r: Self)
        ensures
            r == (NotificationSettings {
                enable_notifications: true,
                command_completion: false,
                error_notifications: true,
                sound_enabled: false,
            }),
    {
        NotificationSettings {
            enable_notifications: true,
            command_completion: false,
            error_notifications: true,
            sound_enabled: false,
        }
    }
}

impl Default for PerformanceSettings {
    fn default() -> (r: Self)
        ensures
            r == (PerformanceSettings {
                max_fps: 60,
                gpu_acceleration: true,
                memory_limit_mb: 512,
                lazy_rendering: true,
                buffer_size: 10000,
            }),
    {
        PerformanceSettings {
            max_fps: 60,
            gpu_acceleration: true,
            memory_limit_mb: 512,
            lazy_rendering: true,
            buffer_size: 10000,
        }
    }
}

/// The default user preferences.
pub open spec fn is_default_preferences(r: UserPreferences) -> bool {
    &&& r.auto_save_session && r.show_timestamps && r.enable_fuzzy_search
    &&& r.max_history_size == 1000
    &&& r.scroll_sensitivity == F32_ONE_BITS && r.animation_speed == F32_ONE_BITS
    &&& r.transparency == F32_ONE_BITS
    &&& !r.blur_background
    &&& r.cursor_style == CursorStyle::Block
    &&& r.tab_behavior.close_on_exit && !r.tab_behavior.confirm_close
    &&& r.tab_behavior.new_tab_directory@ == "~"@
    &&& r.notification_settings == (NotificationSettings {
        enable_notifications: true,
        command_completion: false,
        error_notifications: true,
        sound_enabled: false,
    })
    &&& r.performance == (PerformanceSettings {
        max_fps: 60,
        gpu_acceleration: true,
        memory_limit_mb: 512,
        lazy_rendering: true,
        buffer_size: 10000,
    })
}

/// The default key bindings.
pub open spec fn is_default_keybindings(r: KeyBindings) -> bool {
    &&& r.new_tab@ == "Ctrl+T"@
    &&& r.close_tab@ == "Ctrl+W"@
    &&& r.next_tab@ == "Ctrl+Tab"@
    &&& r.prev_tab@ == "Ctrl+Shift+Tab"@
    &&& r.clear_screen@ == "Ctrl+L"@
    &&& r.copy@ == "Ctrl+C"@
    &&& r.paste@ == "Ctrl+V"@
    &&& r.search@ == "Ctrl+F"@
    &&& r.preferences@ == "Ctrl+Comma"@
    &&& r.theme_selector@ == "Ctrl+Shift+T"@
}

impl Default for UserPreferences {
    fn default() -> (r: Self)
        ensures
            is_default_preferences(r),
    {
        UserPreferences {
            auto_save_session: true,
            show_timestamps: true,
            enable_fuzzy_search: true,
            max_history_size: 1000,
            scroll_sensitivity: F32_ONE_BITS,
            animation_speed: F32_ONE_BITS,
            blur_background: false,
            transparency: F32_ONE_BITS,
            cursor_style: CursorStyle::Block,
            tab_behavior: TabBehavior::default(),
            notification_settings: NotificationSettings::default(),
            performance: PerformanceSettings::default(),
        }
    }
}

impl Default for KeyBindings {
    fn default() -> (r: Self)
        ensures
            is_default_keybindings(r),
    {
        KeyBindings {
            new_tab: owned("Ctrl+T"),
            close_tab: owned("Ctrl+W"),
            next_tab: owned("Ctrl+Tab"),
            prev_tab: owned("Ctrl+Shift+Tab"),
            clear_screen: owned("Ctrl+L"),
            copy: owned("Ctrl+C"),
            paste: owned("Ctrl+V"),
            search: owned("Ctrl+F"),
            preferences: owned("Ctrl+Comma"),
            theme_selector: owned("Ctrl+Shift+T"),
        }
    }
}

/// The default configuration.
pub open spec fn is_default_config(r: WarpConfig) -> bool {
    &&& r.theme@ == "default"@
    &&& r.font_size == 14
    &&& r.font_family@ == "JetBrains Mono"@
    &&& r.shell@ == "zsh"@
    &&& r.startup_commands@.len() == 0
    &&& r.custom_themes.view() == Map::<Seq<char>, CustomThemeOverrides>::empty()
    &&& r.prompt.style == PromptStyle::Warp
    &&& !r.prompt.same_line_prompt
    &&& string_views(r.prompt.context_chips@) == seq!["cwd"@, "git"@, "time"@]
    &&& is_default_preferences(r.preferences)
    &&& is_default_keybindings(r.keybindings)
}

impl Default for WarpConfig {
    fn default() -> (r: Self)
        ensures
            is_default_config(r),
    {
        WarpConfig {
            theme: owned("default"),
            font_size: 14,
            font_family: owned("JetBrains Mono"),
            shell: owned("zsh"),
            startup_commands: Vec::new(),
            keybindings: KeyBindings::default(),
            preferences: UserPreferences::default(),
            custom_themes: Table::new(),
            prompt: PromptSettings::default(),
        }
    }
}

/// A copy of an optional string.
fn copy_opt(o: &Option<String>) -> (r: Option<String>)
    ensures
        r == *o,
{
    match o {
        Some(s) => Some(s.clone()),
        None => None,
    }
}

impl Duplicate for ColorPaletteOverrides {
    open spec fn same_as(&self, other: &Self) -> bool {
        *self == *other
    }

    fn duplicate(&self) -> (r: Self) {
        ColorPaletteOverrides {
            black: copy_opt(&self.black),
            red: copy_opt(&self.red),
            green: copy_opt(&self.green),
            yellow: copy_opt(&self.yellow),
            blue: copy_opt(&self.blue),
            magenta: copy_opt(&self.magenta),
            cyan: copy_opt(&self.cyan),
            white: copy_opt(&self.white),
        }
    }
}

impl Duplicate for UiElementColors {
    open spec fn same_as(&self, other: &Self) -> bool {
        *self == *other
    }

    fn duplicate(&self) -> (r: Self) {
        UiElementColors {
            button_background: copy_opt(&self.button_background),
            button_hover: copy_opt(&self.button_hover),
            input_background: copy_opt(&self.input_background),
            border_color: copy_opt(&self.border_color),
            selection_color: copy_opt(&self.selection_color),
            error_color: copy_opt(&self.error_color),
            warning_color: copy_opt(&self.warning_color),
            success_color: copy_opt(&self.success_color),
        }
    }
}

impl Duplicate for CustomThemeOverrides {
    open spec fn same_as(&self, other: &Self) -> bool {
        *self == *other
    }

    fn duplicate(&self) -> (r: Self) {
        let terminal_colors = match &self.terminal_colors {
            Some(t) => {
                let bright = match &t.bright {
                    Some(p) => Some(p.duplicate()),
                    None => None,
                };
                let normal = match &t.normal {
                    Some(p) => Some(p.duplicate()),
                    None => None,
                };
                Some(TerminalColorOverrides { bright, normal })
            },
            None => None,
        };
        let ui_elements = match &self.ui_elements {
            Some(u) => Some(u.duplicate()),
            None => None,
        };
        CustomThemeOverrides {
            accent: copy_opt(&self.accent),
            background: copy_opt(&self.background),
            foreground: copy_opt(&self.foreground),
            terminal_colors,
            ui_elements,
        }
    }
}

impl Duplicate for KeyBindings {
    open spec fn same_as(&self, other: &Self) -> bool {
        *self == *other
    }

    fn duplicate(&self) -> (r: Self) {
        KeyBindings {
            new_tab: self.new_tab.clone(),
            close_tab: self.close_tab.clone(),
            next_tab: self.next_tab.clone(),
            prev_tab: self.prev_tab.clone(),
            clear_screen: self.clear_screen.clone(),
            copy: self.copy.clone(),
            paste: self.paste.clone(),
            search: self.search.clone(),
            preferences: self.preferences.clone(),
            theme_selector: self.theme_selector.clone(),
        }
    }
}

impl Duplicate for UserPreferences {
    open spec fn same_as(&self, other: &Self) -> bool {
        *self == *other
    }

    fn duplicate(&self) -> (r: Self) {
        UserPreferences {
            auto_save_session: self.auto_save_session,
            show_timestamps: self.show_timestamps,
            enable_fuzzy_search: self.enable_fuzzy_search,
            max_history_size: self.max_history_size,
            scroll_sensitivity: self.scroll_sensitivity,
            animation_speed: self.animation_speed,
            blur_background: self.blur_background,
            transparency: self.transparency,
            cursor_style: self.cursor_style,
            tab_behavior: TabBehavior {
                close_on_exit: self.tab_behavior.close_on_exit,
                confirm_close: self.tab_behavior.confirm_close,
                new_tab_directory: self.tab_behavior.new_tab_directory.clone(),
            },
            notification_settings: self.notification_settings,
            performance: self.performance,
        }
    }
}

impl Duplicate for PromptSettings {
    open spec fn same_as(&self, other: &Self) -> bool {
        &&& self.style == other.style
        &&& self.same_line_prompt == other.same_line_prompt
        &&& self.context_chips@ == other.context_chips@
    }

    fn duplicate(&self) -> (r: Self) {
        PromptSettings {
            style: self.style,
            same_line_prompt: self.same_line_prompt,
            context_chips: copy_strings(&self.context_chips),
        }
    }
}

impl Duplicate for WarpConfig {
    open spec fn same_as(&self, other: &Self) -> bool {
        &&& self.theme == other.theme
        &&& self.font_size == other.font_size
        &&& self.font_family == other.font_family
        &&& self.shell == other.shell
        &&& self.startup_commands@ == other.startup_commands@
        &&& self.keybindings == other.keybindings
        &&& self.preferences == other.preferences
        &&& self.custom_themes.key_seq() == other.custom_themes.key_seq()
        &&& self.custom_themes.view() == other.custom_themes.view()
        &&& self.prompt.same_as(&other.prompt)
    }

    fn duplicate(&self) -> (r: Self) {
        let custom_themes = self.custom_themes.duplicate();
        assert(custom_themes.view() =~= self.custom_themes.view());
        WarpConfig {
            theme: self.theme.clone(),
            font_size: self.font_size,
            font_family: self.font_family.clone(),
            shell: self.shell.clone(),
            startup_commands: copy_strings(&self.startup_commands),
            keybindings: self.keybindings.duplicate(),
            preferences: self.preferences.duplicate(),
            custom_themes,
            prompt: self.prompt.duplicate(),
        }
    }
}

/// Holds the configuration and where it is stored. Writing it to disk is left to the
/// caller after each change.
pub struct ConfigManager {
    config: WarpConfig,
    config_path: String,
}

impl ConfigManager {
    /// The configuration held.
    pub closed spec fn config(self) -> WarpConfig {
        self.config
    }

    /// Where the configuration is stored.
    pub closed spec fn path(self) -> Seq<char> {
        self.config_path@
    }

    /// A manager of `config`, stored at `config_path`.
    pub fn from_parts(config: WarpConfig, config_path: String) -> (m: Self)
        ensures
            m.config() == config,
            m.path() == config_path@,
    {
        ConfigManager { config, config_path }
    }

    /// Where the configuration is stored.
    pub fn config_path(&self) -> (r: &str)
        ensures
            r@ == self.path(),
    {
        self.config_path.as_str()
    }

    pub fn get_config(&self) -> (r: &WarpConfig)
        ensures
            *r == self.config(),
    {
        &self.config
    }

    pub fn get_preferences(&self) -> (r: &UserPreferences)
        ensures
            *r == self.config().preferences,
    {
        &self.config.preferences
    }

    /// Replaces the whole configuration.
    pub fn update_config(&mut self, config: WarpConfig)
        ensures
            final(self).config() == config,
            final(self).path() == old(self).path(),
    {
        self.config = config;
    }

    /// Replaces the preferences.
    pub fn update_preferences(&mut self, preferences: UserPreferences)
        ensures
            final(self).config() == (WarpConfig { preferences, ..old(self).config() }),
            final(self).path() == old(self).path(),
    {
        self.config.preferences = preferences;
    }

    /// Selects the theme by name.
    pub fn set_theme(&mut self, theme_name: String)
        ensures
            final(self).config() == (WarpConfig { theme: theme_name, ..old(self).config() }),
            final(self).path() == old(self).path(),
    {
        self.config.theme = theme_name;
    }

    /// Stores colour overrides for `theme_name`, replacing earlier ones.
    pub fn add_custom_theme_override(&mut self, theme_name: String, overrides: CustomThemeOverrides)
        ensures
            final(self).config().custom_themes.view() == old(self).config().custom_themes.view().insert(
                theme_name@,
                overrides,
            ),
            final(self).config() == (WarpConfig { custom_themes: final(self).config().custom_themes, ..old(self).config() }),
            final(self).path() == old(self).path(),
    {
        self.config.custom_themes.insert(theme_name, overrides);
    }

    /// The colour overrides of `theme_name`, if any.
    pub fn get_custom_theme_override(&self, theme_name: &str) -> (r: Option<&CustomThemeOverrides>)
        ensures
            r is Some == self.config().custom_themes.view().contains_key(theme_name@),
            r matches Some(o) ==> *o == self.config().custom_themes.view()[theme_name@],
    {
        self.config.custom_themes.get(&owned(theme_name))
    }

    pub fn get_prompt_settings(&self) -> (r: &PromptSettings)
        ensures
            *r == self.config().prompt,
    {
        &self.config.prompt
    }

    /// Replaces the prompt settings.
    pub fn update_prompt_settings(&mut self, prompt_settings: PromptSettings)
        ensures
            final(self).config() == (WarpConfig { prompt: prompt_settings, ..old(self).config() }),
            final(self).path() == old(self).path(),
    {
        self.config.prompt = prompt_settings;
    }
}

} // verus!
