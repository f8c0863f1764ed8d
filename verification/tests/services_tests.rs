use warp_terminal::agent_mode_eval::AgentModeEvaluator;
use warp_terminal::asset_macro::get_asset_path;
use warp_terminal::command::CommandParser;
use warp_terminal::config::preferences::PreferencesManager;
use warp_terminal::config::{ConfigManager, CustomThemeOverrides, WarpConfig};
use warp_terminal::input::{Editor, EditorMessage, EditorOutput, InputHandler};
use warp_terminal::input_block::InputBlock;
use warp_terminal::input_block_example::run_input_block_examples;
use warp_terminal::input_block_integration::InputBlockIntegrator;
use warp_terminal::integration::IntegrationManager;
use warp_terminal::languages::LanguageService;
use warp_terminal::lpc::{CommandType, LanguageProcessor};
use warp_terminal::markdown_parser::MarkdownRenderer;
use warp_terminal::natural_language_detection::NaturalLanguageDetector;
use warp_terminal::resources::ResourceManager;
use warp_terminal::sum_tree::SumTree;
use warp_terminal::syntax_tree::SyntaxTree;

fn submitted(out: EditorOutput) -> Option<String> {
    match out {
        EditorOutput::Nothing => None,
        EditorOutput::InputSubmitted(s) => Some(s),
    }
}

#[test]
fn editor_submits_and_walks_the_history() {
    let mut e = Editor::new();
    assert_eq!(e.get_input_value(), "");
    e.update(EditorMessage::InputChanged("ls".to_string()));
    assert_eq!(submitted(e.update(EditorMessage::Submit)), Some("ls".to_string()));
    assert_eq!(e.get_input_value(), "");
    e.update(EditorMessage::InputChanged("pwd".to_string()));
    e.update(EditorMessage::Submit);
    e.update(EditorMessage::HistoryUp);
    assert_eq!(e.get_input_value(), "pwd");
    e.update(EditorMessage::HistoryUp);
    assert_eq!(e.get_input_value(), "ls");
    e.update(EditorMessage::HistoryUp);
    assert_eq!(e.get_input_value(), "ls");
    e.update(EditorMessage::HistoryDown);
    assert_eq!(e.get_input_value(), "pwd");
    e.update(EditorMessage::HistoryDown);
    assert_eq!(e.get_input_value(), "");
}

#[test]
fn editor_reports_blank_submissions_without_recording_them() {
    let mut e = Editor::new();
    e.update(EditorMessage::InputChanged("   ".to_string()));
    assert_eq!(submitted(e.update(EditorMessage::Submit)), Some("   ".to_string()));
    assert_eq!(e.get_input_value(), "   ");
    e.update(EditorMessage::HistoryUp);
    assert_eq!(e.get_input_value(), "   ");
}

#[test]
fn editor_setters_and_key_handler() {
    let mut e = Editor::new();
    e.set_input_value("echo".to_string());
    assert_eq!(e.get_input_value(), "echo");
    e.handle_key_event('a');
    e.handle_key_event('b');
    assert_eq!(e.get_input_value(), "ab");
    e.set_font_size(20);
    e.set_font_family("Menlo".to_string());
    e.clear();
    assert_eq!(e.get_input_value(), "");
    let mut h = InputHandler::new();
    h.handle_key_event('x');
    assert_eq!(h.current_input, "x");
    h.clear_input();
    assert_eq!(h.current_input, "");
}

#[test]
fn plain_language_commands() {
    let p = LanguageProcessor::new();
    assert_eq!(p.process_command("Please LIST FILES here"), CommandType::ListFiles);
    assert_eq!(p.process_command("show me files"), CommandType::ListFiles);
    assert_eq!(p.process_command("Open File Notes.TXT"), CommandType::OpenFile("notes.txt".to_string()));
    assert_eq!(p.process_command("search for Rust books"), CommandType::Search("rust books".to_string()));
    assert_eq!(p.process_command("open file"), CommandType::Unknown);
    assert_eq!(p.process_command("make coffee"), CommandType::Unknown);
}

#[test]
fn command_lines_split_into_name_and_arguments() {
    let p = CommandParser::new();
    let c = p.parse_command("  git   commit -m  msg ").unwrap();
    assert_eq!(c.name, "git");
    assert_eq!(c.args, vec!["commit", "-m", "msg"]);
    let empty = p.parse_command("   ").unwrap();
    assert_eq!(empty.name, "");
    assert!(empty.args.is_empty());
}

#[test]
fn config_manager_updates() {
    let mut m = ConfigManager::from_parts(WarpConfig::default(), "/tmp/config.yaml".to_string());
    assert_eq!(m.config_path(), "/tmp/config.yaml");
    assert_eq!(m.get_config().theme, "default");
    assert_eq!(m.get_config().font_size, 14);
    assert_eq!(m.get_config().keybindings.copy, "Ctrl+C");
    assert_eq!(m.get_preferences().max_history_size, 1000);
    m.set_theme("solarized".to_string());
    assert_eq!(m.get_config().theme, "solarized");
    let overrides = CustomThemeOverrides {
        accent: Some("#ff0000".to_string()),
        background: None,
        foreground: None,
        terminal_colors: None,
        ui_elements: None,
    };
    assert!(m.get_custom_theme_override("solarized").is_none());
    m.add_custom_theme_override("solarized".to_string(), overrides);
    assert_eq!(m.get_custom_theme_override("solarized").unwrap().accent.as_deref(), Some("#ff0000"));
    assert_eq!(m.get_config().theme, "solarized");
    let mut prompt = warp_terminal::config::PromptSettings::default();
    prompt.same_line_prompt = true;
    m.update_prompt_settings(prompt);
    assert!(m.get_prompt_settings().same_line_prompt);
    let mut c = WarpConfig::default();
    c.font_size = 18;
    m.update_config(c);
    assert_eq!(m.get_config().font_size, 18);
    assert_eq!(m.get_config().theme, "default");
}

#[test]
fn preferences_manager_updates() {
    let mut m = PreferencesManager::new();
    assert_eq!(m.get_preferences().font_size, 14);
    assert_eq!(m.get_preferences().key_bindings.toggle_command_palette, "Ctrl+P");
    m.update_key_binding("open_warp_drive", "Ctrl+D".to_string());
    assert_eq!(m.get_preferences().key_bindings.open_warp_drive, "Ctrl+D");
    m.update_key_binding("unknown", "X".to_string());
    assert_eq!(m.get_preferences().key_bindings.toggle_command_palette, "Ctrl+P");
    m.update_user_preference("enable_collaboration", true);
    assert!(m.get_preferences().user_preferences.enable_collaboration);
    m.update_user_preference("enable_telemetry", false);
    assert!(m.get_preferences().user_preferences.enable_telemetry);
    m.update_max_history_size(50);
    assert_eq!(m.get_preferences().user_preferences.max_history_size, 50);
}

#[test]
fn input_block_integration_notes() {
    let i = InputBlockIntegrator::new();
    let text = InputBlock::new("Name:".to_string(), "text".to_string());
    assert_eq!(i.integrate_block(&text), "  (Text input ready for user text)");
    assert_eq!(i.process_integrated_input(&text), "  Input is empty. Please provide a value.");
    let pw = InputBlock::with_value("Password:".to_string(), "s3cret".to_string(), "password".to_string());
    assert_eq!(i.integrate_block(&pw), "  (Password input ready for secure entry)");
    assert_eq!(i.process_integrated_input(&pw), "  Input received: 's3cret'. Performing action...");
    let other = InputBlock::new("?".to_string(), "date".to_string());
    assert_eq!(i.integrate_block(&other), "  (Unknown input type)");
}

#[test]
fn input_block_examples() {
    let blocks = run_input_block_examples();
    assert_eq!(blocks.len(), 5);
    assert_eq!(blocks[0].get_value(), "Alice");
    assert_eq!(blocks[1].input_type, "password");
    assert_eq!(blocks[3].get_value(), "Updated content");
    assert_eq!(blocks[4].get_value(), "");
}

#[test]
fn small_services() {
    assert_eq!(get_asset_path("logo.png"), "/path/to/assets/logo.png");
    assert_eq!(IntegrationManager::new().get_docker_status(), "Docker: Running");
    assert_eq!(LanguageService::new().get_syntax_rules("rust"), vec!["rules for rust"]);
    assert_eq!(ResourceManager::new().get_cache_dir(), "/tmp/warp_terminal_cache");
    assert_eq!(MarkdownRenderer::new().render_markdown("# Hi"), "# Hi");
    let d = NaturalLanguageDetector::new();
    assert_eq!(d.detect_intent("hello there"), "English");
    assert_eq!(d.detect_intent("hola amigo"), "Spanish");
    assert_eq!(d.detect_intent("bonjour"), "Unknown");
    assert_eq!(
        AgentModeEvaluator::new().evaluate_goal("deploy"),
        "echo 'Agent mode activated: Goal evaluation complete.'"
    );
}

#[test]
fn sum_tree_and_syntax_tree_placeholders() {
    let mut t: SumTree<u32> = SumTree::new();
    t.insert(0, 5);
    assert_eq!(t.get_range_sum(0, 1), 0);
    let mut s = SyntaxTree::new();
    s.add_node("program".to_string());
    assert_eq!(s.analyze(), "Syntax analysis complete.");
}
