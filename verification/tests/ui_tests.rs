use warp_terminal::blocks::{Block, BlockContent};
use warp_terminal::command_palette::{CommandAction, CommandPalette, CommandPaletteMessage, PaletteOutput};
use warp_terminal::editor::{EnhancedTextInput, Suggestion};
use warp_terminal::input::EditorMessage;
use warp_terminal::preferences::{
    button_message, control_message, ControlInput, FormField, FormKeyBindings, FormPreferences, FormPromptSettings,
    PrefButton, PrefField, PreferencesMessage, PreferencesWindow,
};
use warp_terminal::settings::keybinding_editor::{default_keybindings, KeybindingEditor, KeybindingEditorMessage};
use warp_terminal::shell::{collect_output, spawn_error_output, ShellOutput, ShellType};
use warp_terminal::terminal::{Message, TerminalAction, WarpTerminal};

fn keys() -> FormKeyBindings {
    default_keybindings()
}

fn prompt_settings() -> FormPromptSettings {
    FormPromptSettings {
        show_user: true,
        show_host: false,
        show_cwd: true,
        show_git_status: true,
        user_symbol: "u".to_string(),
        host_symbol: "h".to_string(),
        cwd_symbol: "c".to_string(),
        git_symbol: "g".to_string(),
        prompt_symbol: ">".to_string(),
    }
}

#[test]
fn palette_lists_everything_for_an_empty_search() {
    let mut p = CommandPalette::new();
    assert!(!p.is_visible());
    assert_eq!(p.listed_commands().len(), 9);
    p.update(CommandPaletteMessage::SearchInputChanged("THEME".to_string()));
    let names: Vec<&str> = p.listed_commands().iter().map(|c| c.name.as_str()).collect();
    assert_eq!(names, vec!["Open Theme Customizer"]);
    p.show();
    assert!(p.is_visible());
    assert_eq!(p.search_text(), "");
    assert_eq!(p.listed_commands().len(), 9);
}

#[test]
fn palette_submits_the_first_listed_command() {
    let mut p = CommandPalette::new();
    p.update(CommandPaletteMessage::ToggleVisibility);
    assert!(p.is_visible());
    p.update(CommandPaletteMessage::Editor(EditorMessage::InputChanged("directory".to_string())));
    match p.update(CommandPaletteMessage::Editor(EditorMessage::Submit)) {
        Some(PaletteOutput::ExecuteCommandAction(CommandAction::Custom(c))) => assert_eq!(c, "pwd"),
        other => panic!("unexpected {:?}", other),
    }
    assert!(!p.is_visible());
    p.update(CommandPaletteMessage::SearchInputChanged("nothing matches this".to_string()));
    assert!(p.update(CommandPaletteMessage::Editor(EditorMessage::Submit)).is_none());
}

#[test]
fn palette_runs_actions_by_name() {
    let mut p = CommandPalette::new();
    match p.update(CommandPaletteMessage::ExecuteCommand("ClearTerminal".to_string())) {
        Some(PaletteOutput::ExecuteCommandAction(CommandAction::ClearTerminal)) => {}
        other => panic!("unexpected {:?}", other),
    }
    // A text that names no predefined action counts as a custom command line.
    match p.update(CommandPaletteMessage::ExecuteCommand("ls -la".to_string())) {
        Some(PaletteOutput::ExecuteCommandAction(CommandAction::Custom(c))) => assert_eq!(c, "ls -la"),
        other => panic!("unexpected {:?}", other),
    }
    assert_eq!(CommandAction::OpenWarpDrive.to_string(), "OpenWarpDrive");
    assert!(CommandAction::from_string("OpenWarpDrive").is_some());
}

#[test]
fn action_names_round_trip() {
    for name in ["ClearTerminal", "ToggleFullscreen", "OpenPreferences", "OpenThemeCustomizer", "OpenProfileManager",
        "OpenWorkflowBrowser", "OpenWarpDrive", "git status"] {
        assert_eq!(CommandAction::from_string(name).unwrap().to_string(), name);
    }
    assert!(matches!(CommandAction::from_string(&CommandAction::OpenPreferences.to_string()), Some(CommandAction::OpenPreferences)));
    // A custom line that spells a predefined name reads back as that action.
    let custom = CommandAction::Custom("ClearTerminal".to_string());
    assert!(matches!(CommandAction::from_string(&custom.to_string()), Some(CommandAction::ClearTerminal)));
}

#[test]
fn terminal_submits_and_walks_history() {
    let mut t = WarpTerminal::new();
    assert_eq!(t.title(), "Warp Terminal - 0 blocks");
    t.update(Message::InputChanged("   ".to_string()));
    assert!(t.update(Message::InputSubmitted).is_none());
    t.update(Message::InputChanged("ls".to_string()));
    let id = match t.update(Message::InputSubmitted) {
        Some(TerminalAction::ExecuteCommand { block_id, command }) => {
            assert_eq!(command, "ls");
            block_id
        }
        None => panic!("nothing to run"),
    };
    assert_eq!(t.title(), "Warp Terminal - 1 blocks");
    t.update(Message::InputChanged("pwd".to_string()));
    t.update(Message::InputSubmitted);
    t.update(Message::HistoryUp);
    t.update(Message::HistoryUp);
    t.update(Message::HistoryUp);
    t.update(Message::HistoryDown);
    t.update(Message::HistoryDown);
    t.update(Message::CommandOutput(id, "file.txt".to_string()));
    t.update(Message::Tick);
}

#[test]
fn blocks_collect_output_and_status() {
    let mut b = Block::new_command(7, "ls".to_string(), "$".to_string());
    assert_eq!(b.status_label().unwrap().text, "RUNNING...");
    b.append_output(ShellOutput::Stdout("a".to_string()));
    b.append_output(ShellOutput::Stderr("oops".to_string()));
    match &b.content {
        BlockContent::Command { output, .. } => assert_eq!(output, "a\n[ERROR] oops\n"),
        _ => panic!("not a command"),
    }
    b.complete_execution(0, 15);
    let l = b.status_label().unwrap();
    assert_eq!((l.text.as_str(), l.color.as_str(), l.bright), ("SUCCESS (15ms)", "green", true));
    let mut f = Block::new_command(8, "false".to_string(), "$".to_string());
    f.complete_execution(-2, 3);
    assert_eq!(f.status_label().unwrap().text, "FAILED (-2, 3ms)");
    let mut m = Block::new_markdown(9, "# hi".to_string());
    m.append_output(ShellOutput::Stdout("ignored".to_string()));
    assert!(m.status_label().is_none());
}

#[test]
fn shell_programs_and_output() {
    assert_eq!(ShellType::PowerShell.get_shell_command(), "pwsh");
    assert_eq!(ShellType::default().get_shell_command(), "zsh");
    let out = collect_output(&vec!["a\n".to_string(), "b\n".to_string()], &vec!["err\n".to_string()]);
    assert_eq!(out, "a\nb\nerr\n");
    assert_eq!(spawn_error_output("boom"), "Error executing command: boom");
}

#[test]
fn editor_suggestions() {
    let input = EnhancedTextInput::new().with_value("gi".to_string());
    assert_eq!(input.value(), "gi");
    assert!(!input.shows_suggestions());
    let sugg: Vec<Suggestion> = (0..7).map(|i| Suggestion { text: format!("git {}", i) }).collect();
    let input = input.with_suggestions(sugg);
    assert!(input.shows_suggestions());
    let rows = input.suggestion_rows();
    assert_eq!(rows.len(), 5);
    assert_eq!(rows[4].text, "git 4");
    assert!(rows.iter().all(|r| !r.selected));
}

#[test]
fn preferences_window_edits_and_saves() {
    let prefs = FormPreferences {
        enable_fuzzy_search: true,
        enable_collaboration: false,
        show_welcome_message: true,
        max_history_size: 1000,
        enable_auto_update: false,
    };
    let mut w = PreferencesWindow::new(prefs, "Fira Code".to_string(), 14, "/bin/zsh".to_string(), keys(), prompt_settings());
    assert!(!w.is_visible());
    w.update(PreferencesMessage::ToggleVisibility);
    assert!(w.is_visible());
    w.update(PreferencesMessage::MaxHistorySizeChanged("250".to_string()));
    w.update(PreferencesMessage::MaxHistorySizeChanged("not a number".to_string()));
    w.update(PreferencesMessage::ToggleCollaboration(true));
    w.update(PreferencesMessage::HistoryUpKeyChanged("Ctrl+Up".to_string()));
    w.update(PreferencesMessage::PromptSymbolChanged("$".to_string()));
    let saved = w.update(PreferencesMessage::SavePreferences).unwrap();
    assert_eq!(saved.preferences.max_history_size, 250);
    assert!(saved.preferences.enable_collaboration);
    assert_eq!(saved.font_size, 14);
    assert_eq!(saved.keybindings.history_up, "Ctrl+Up");
    assert_eq!(saved.prompt_settings.prompt_symbol, "$");
    w.update(PreferencesMessage::FontSizeChanged("huge".to_string()));
    assert_eq!(w.update(PreferencesMessage::SavePreferences).unwrap().font_size, 16);
    w.update(PreferencesMessage::FontSizeChanged("70000".to_string()));
    assert_eq!(w.update(PreferencesMessage::SavePreferences).unwrap().font_size, 16);
    let sections = w.form_sections();
    let titles: Vec<&str> = sections.iter().map(|s| s.title.as_str()).collect();
    assert_eq!(titles, vec!["General Preferences", "Font Settings", "Shell Settings", "Keybindings", "Prompt Settings"]);
    assert_eq!(sections[3].fields.len(), 11);
    w.close();
    assert!(!w.is_visible());
}

#[test]
fn keybinding_editor_saves_cancels_and_resets() {
    let mut e = KeybindingEditor::new(keys());
    e.update(KeybindingEditorMessage::KeybindingChanged("clear_terminal".to_string(), "Ctrl+K".to_string()));
    e.update(KeybindingEditorMessage::KeybindingChanged("unknown".to_string(), "X".to_string()));
    assert_eq!(e.rows()[3].2, "Ctrl+K");
    e.update(KeybindingEditorMessage::CancelClicked);
    assert_eq!(e.rows()[3].2, "Ctrl+L");
    e.update(KeybindingEditorMessage::KeybindingChanged("history_up".to_string(), "K".to_string()));
    let req = e.update(KeybindingEditorMessage::SaveClicked).unwrap();
    assert_eq!(req.keybindings.history_up, "K");
    e.saved();
    e.update(KeybindingEditorMessage::ResetToDefaults);
    assert_eq!(e.rows()[1].2, "Up");
    e.update(KeybindingEditorMessage::CancelClicked);
    assert_eq!(e.rows()[1].2, "K");
    assert_eq!(e.rows()[0].0, "Submit Input");
}

#[test]
fn terminal_history_keeps_the_newest_thousand() {
    let mut t = WarpTerminal::new();
    for i in 0..1001 {
        t.update(Message::InputChanged(format!("c{}", i)));
        assert!(t.update(Message::InputSubmitted).is_some());
    }
    for _ in 0..1005 {
        t.update(Message::HistoryUp);
    }
    match t.update(Message::InputSubmitted) {
        Some(TerminalAction::ExecuteCommand { command, .. }) => assert_eq!(command, "c1"),
        None => panic!("nothing to run"),
    }
    assert_eq!(t.title(), "Warp Terminal - 1002 blocks");
}

#[test]
fn preferences_controls_send_their_messages() {
    let prefs = FormPreferences {
        enable_fuzzy_search: true,
        enable_collaboration: false,
        show_welcome_message: true,
        max_history_size: 1000,
        enable_auto_update: false,
    };
    let mut w = PreferencesWindow::new(prefs, "Fira Code".to_string(), 14, "/bin/zsh".to_string(), keys(), prompt_settings());
    let m = control_message(PrefField::OpenWarpDrive, ControlInput::Typed("Ctrl+D".to_string())).unwrap();
    assert!(matches!(&m, PreferencesMessage::OpenWarpDriveKeyChanged(s) if s == "Ctrl+D"));
    w.update(m);
    let m = control_message(PrefField::Collaboration, ControlInput::Switched(true)).unwrap();
    w.update(m);
    assert!(control_message(PrefField::Collaboration, ControlInput::Typed("x".to_string())).is_none());
    assert!(control_message(PrefField::ShellPath, ControlInput::Switched(true)).is_none());
    assert!(matches!(button_message(PrefButton::Close), PreferencesMessage::ToggleVisibility));
    assert!(matches!(button_message(PrefButton::Save), PreferencesMessage::SavePreferences));
    let sections = w.form_sections();
    match &sections[3].fields[10] {
        FormField::Text { field, value, .. } => {
            assert_eq!(*field, PrefField::OpenWarpDrive);
            assert_eq!(value, "Ctrl+D");
        }
        other => panic!("unexpected {:?}", other),
    }
    match &sections[0].fields[1] {
        FormField::Toggle { field, on, .. } => {
            assert_eq!(*field, PrefField::Collaboration);
            assert!(*on);
        }
        other => panic!("unexpected {:?}", other),
    }
}
