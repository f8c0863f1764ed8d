use warp_terminal::blocks::{Block, BlockContent, BlockMessage};
use warp_terminal::clock::{clock_text_of, MAX_LOCAL_MILLIS, MIN_LOCAL_MILLIS};
use warp_terminal::mcq::MCQManager;
use warp_terminal::api::{ApiClient, TelemetryCollector};
use warp_terminal::agent_mode_eval::executor::{context_setup_script, missing_function_message};
use warp_terminal::collaboration::{CollaborationManager, EventType};
use warp_terminal::color::Rgb8;
use warp_terminal::config::PromptSettings;
use warp_terminal::drive::{DriveManager, WarpDriveItem};
use warp_terminal::graphql::{GraphQLClient, GraphQLResponse};
use warp_terminal::natural_language_detection::model::predict_label;
use warp_terminal::profile_manager_ui::{ProfileField, ProfileManagerMessage, ProfileManagerUI, ProfileRequest};
use warp_terminal::profile_switcher::{ProfileSwitcher, ProfileSwitcherMessage};
use warp_terminal::profiles::UserProfile;
use warp_terminal::prompt::PromptRenderer;
use warp_terminal::renderer::{Renderer, SurfaceSize};
use warp_terminal::serve_wasm::{module_response, route_module, WasmServer};
use warp_terminal::syntax_tree::parser::{find_nodes_by_kind, print_tree_structure, SyntaxNode};
use warp_terminal::theme_customizer::{
    hex_to_color, parse_typed_color, CustomTheme, CustomizerRequest, PaletteColors, TerminalPalettes, ThemeCustomizer,
    ThemeCustomizerMessage,
};
use warp_terminal::theme_selector::{ThemeSelector, ThemeSelectorMessage};

fn palette() -> PaletteColors {
    PaletteColors {
        black: "#000000".to_string(),
        red: "#cd3131".to_string(),
        green: "#0dbc79".to_string(),
        yellow: "#e5e510".to_string(),
        blue: "#2472c8".to_string(),
        magenta: "#bc3fbc".to_string(),
        cyan: "#0598bc".to_string(),
        white: "#e5e5e5".to_string(),
    }
}

fn custom() -> CustomTheme {
    CustomTheme {
        name: "Base".to_string(),
        accent: "#007acc".to_string(),
        background: "#1e1e1e".to_string(),
        foreground: "#d4d4d4".to_string(),
        terminal_colors: TerminalPalettes { normal: palette(), bright: palette() },
    }
}

fn leaf(kind: &str) -> SyntaxNode {
    SyntaxNode { kind: kind.to_string(), start_byte: 0, end_byte: 0, children: vec![] }
}

#[test]
fn drive_items() {
    let mut d = DriveManager::new();
    assert!(d.is_empty());
    d.add_item(WarpDriveItem::Workflow { id: 1, name: "build".to_string(), command: "cargo build".to_string() });
    d.add_item(WarpDriveItem::Notebook { id: 2, name: "notes".to_string(), content: "...".to_string() });
    d.add_item(WarpDriveItem::Workflow { id: 1, name: "test".to_string(), command: "cargo test".to_string() });
    assert_eq!(d.len(), 2);
    match d.get_item(&1) {
        Some(WarpDriveItem::Workflow { name, .. }) => assert_eq!(name, "test"),
        _ => panic!("missing"),
    }
    assert_eq!(d.get_all_items().len(), 2);
    assert!(d.remove_item(&2).is_some());
    assert!(d.get_item(&2).is_none());
    d.clear_items();
    assert_eq!(d.len(), 0);
}

#[test]
fn collaboration_events() {
    let mut c = CollaborationManager::new();
    assert!(c.websocket_url().is_none());
    c.connect("ws://example".to_string());
    assert_eq!(c.websocket_url().unwrap(), "ws://example");
    let e = c.create_command_event("ls".to_string());
    assert_eq!(e.user_id, "anonymous");
    match e.event_type {
        EventType::CommandExecuted { command } => assert_eq!(command, "ls"),
        _ => panic!("wrong event"),
    }
}

#[test]
fn prompt_segments() {
    let settings = PromptSettings::default();
    let segs = PromptRenderer::prompt_segments(&settings, Some("warp"), "10:30");
    let texts: Vec<&str> = segs.iter().map(|s| s.text.as_str()).collect();
    assert_eq!(texts, vec![" warp ", " (git:main*) ", " 10:30 ", " $ "]);
    assert_eq!(segs[0].color.as_deref(), Some("blue"));
    let no_dir = PromptRenderer::prompt_segments(&settings, None, "10:30");
    assert_eq!(no_dir.len(), 3);
    let r = PromptRenderer::new();
    let live = r.render_prompt(&settings, "/home/me/projects");
    assert_eq!(live[0].text, " projects ");
}

#[test]
fn graphql_and_api_answers() {
    let g = GraphQLClient::new("http://localhost/graphql".to_string());
    assert_eq!(g.endpoint(), "http://localhost/graphql");
    let ok = g.interpret_response(GraphQLResponse { status: 200, status_text: "200 OK".to_string(), errors: None, body: "{}".to_string() });
    assert_eq!(ok, Ok("{}".to_string()));
    let errs = g.interpret_response(GraphQLResponse {
        status: 200,
        status_text: "200 OK".to_string(),
        errors: Some("[x]".to_string()),
        body: "{}".to_string(),
    });
    assert_eq!(errs, Err("GraphQL errors: [x]".to_string()));
    let http = g.interpret_response(GraphQLResponse {
        status: 500,
        status_text: "500 Internal Server Error".to_string(),
        errors: None,
        body: "\"Internal Server Error\"".to_string(),
    });
    assert_eq!(http, Err("GraphQL HTTP error: 500 Internal Server Error - \"Internal Server Error\"".to_string()));
    let a = ApiClient::new();
    assert_eq!(a.url_for("posts/1"), "https://jsonplaceholder.typicode.com/posts/1");
    assert_eq!(a.interpret(true, 404, "404 Not Found", "no".to_string()), Err("API POST request failed: 404 Not Found - no".to_string()));
    assert_eq!(a.interpret(false, 204, "204 No Content", "".to_string()), Ok("".to_string()));
    let mut t = TelemetryCollector::new();
    assert_eq!(t.record_event("start"), "Event: start");
    assert_eq!(t.get_event_count(), 1);
}

#[test]
fn wasm_server_routes() {
    assert_eq!(module_response("my_module"), "Placeholder WASM module: my_module");
    assert_eq!(route_module("/wasm/my_module"), Some("my_module".to_string()));
    assert_eq!(route_module("/wasm/"), None);
    assert_eq!(route_module("/wasm/a/b"), None);
    assert_eq!(route_module("/other/a"), None);
    let mut s = WasmServer::new("127.0.0.1:3030".to_string());
    assert!(!s.stop());
    s.start();
    assert!(s.stop());
    assert!(!s.stop());
}

#[test]
fn syntax_tree_search_is_depth_first() {
    let mut cmd = leaf("command");
    cmd.children = vec![leaf("command_name"), leaf("word")];
    let mut inner = leaf("command");
    inner.children = vec![leaf("variable_name")];
    let mut root = leaf("program");
    root.children = vec![cmd, leaf("comment"), inner];
    let found = find_nodes_by_kind(&root, "command");
    assert_eq!(found.len(), 2);
    assert_eq!(found[0].children.len(), 2);
    assert_eq!(found[1].children[0].kind, "variable_name");
    assert_eq!(find_nodes_by_kind(&root, "program").len(), 1);
    assert!(find_nodes_by_kind(&root, "missing").is_empty());
}

#[test]
fn agent_helpers_and_prediction() {
    assert_eq!(context_setup_script("{}"), "const context = JSON.parse(`{}`);");
    assert_eq!(missing_function_message("run"), "Function 'run' not found in WASM module");
    assert_eq!(predict_label("short", true), Ok("short_text_detected".to_string()));
    assert_eq!(predict_label("this text is longer than twenty bytes", true), Ok("long_text_detected".to_string()));
    assert_eq!(predict_label("ééééééééééé", true), Ok("long_text_detected".to_string()));
    assert_eq!(predict_label("x", false), Err("No output from model".to_string()));
}

#[test]
fn renderer_resizes_only_to_visible_sizes() {
    let mut s = SurfaceSize { width: 800, height: 600 };
    assert!(!s.resize(SurfaceSize { width: 0, height: 10 }));
    assert_eq!(s, SurfaceSize { width: 800, height: 600 });
    assert!(s.resize(SurfaceSize { width: 1024, height: 768 }));
    assert_eq!(s.width, 1024);
    assert_eq!(Renderer::new().frame_text("x"), "Rendering frame with content:\nx");
}

#[test]
fn theme_customizer_previews_changes() {
    let mut c = ThemeCustomizer::new(vec!["default".to_string()], custom());
    match c.update(ThemeCustomizerMessage::AccentColorChanged(Rgb8 { r: 255, g: 0, b: 16 })) {
        Some(CustomizerRequest::ThemePreviewUpdated(t)) => assert_eq!(t.accent, "#ff0010"),
        _ => panic!("no preview"),
    }
    c.update(ThemeCustomizerMessage::PreviewToggled(false));
    assert!(c.update(ThemeCustomizerMessage::TerminalColorChanged("red".to_string(), true, Rgb8 { r: 1, g: 2, b: 3 })).is_none());
    assert_eq!(c.get_current_theme().terminal_colors.bright.red, "#010203");
    assert_eq!(c.get_current_theme().terminal_colors.normal.red, "#cd3131");
    match c.update(ThemeCustomizerMessage::SaveCustomTheme("Mine".to_string())) {
        Some(CustomizerRequest::SaveCustomTheme(n, t)) => {
            assert_eq!(n, "Mine");
            assert_eq!(t.accent, "#ff0010");
        }
        _ => panic!("no save"),
    }
    match c.update(ThemeCustomizerMessage::ResetToBase) {
        Some(CustomizerRequest::LoadBaseThemeForCustomization(b)) => assert_eq!(b, "default"),
        _ => panic!("no reset"),
    }
    assert_eq!(hex_to_color("#0a0B0c"), Rgb8 { r: 10, g: 11, b: 12 });
    assert_eq!(hex_to_color("#abc"), Rgb8 { r: 0, g: 0, b: 0 });
    assert_eq!(hex_to_color("#zz0102"), Rgb8 { r: 0, g: 1, b: 2 });
    assert_eq!(parse_typed_color("#abc"), Err("Invalid hex color format".to_string()));
    assert!(parse_typed_color("#zz0102").is_err());
    assert_eq!(parse_typed_color("#ff0000"), Ok(Rgb8 { r: 255, g: 0, b: 0 }));
}

#[test]
fn theme_selector_gives_builtin_themes() {
    let mut s = ThemeSelector::new(vec!["Default Dark".to_string(), "Default Light".to_string()], "Default Dark".to_string());
    let t = s.update(ThemeSelectorMessage::ThemeSelected("Default Light".to_string()));
    assert_eq!(t.name, "Default Light");
    assert_eq!(s.options().1, "Default Light");
}

#[test]
fn profile_manager_window_requests() {
    let mut ui = ProfileManagerUI::new();
    assert!(ui.update(ProfileManagerMessage::CreateProfileClicked).is_none());
    ui.update(ProfileManagerMessage::NewProfileNameChanged("Work".to_string()));
    match ui.update(ProfileManagerMessage::CreateProfileClicked) {
        Some(ProfileRequest::CreateProfile(n, d)) => {
            assert_eq!(n, "Work");
            assert!(d.is_none());
        }
        _ => panic!("no request"),
    }
    let p = UserProfile::default();
    let id = p.id;
    ui.update_profiles(vec![p], id, vec![id]);
    let rows = ui.profile_rows();
    assert!(rows[0].is_active);
    assert_eq!(rows[0].quick_switch_label, "Remove from Quick Switch");
    match ui.update(ProfileManagerMessage::ToggleQuickSwitch(id)) {
        Some(ProfileRequest::RemoveFromQuickSwitch(x)) => assert_eq!(x, id),
        _ => panic!("wrong request"),
    }
    match ui.update(ProfileManagerMessage::ToggleQuickSwitch(5)) {
        Some(ProfileRequest::AddToQuickSwitch(5)) => {}
        _ => panic!("wrong request"),
    }
}

#[test]
fn switcher_shows_initials() {
    let mut s = ProfileSwitcher::new();
    assert!(s.buttons().is_empty());
    let mut p = UserProfile::default();
    p.name = "work".to_string();
    let id = p.id;
    let mut q = UserProfile::default();
    q.avatar_path = Some("/a.png".to_string());
    s.update_profiles(vec![p, q], id);
    let b = s.buttons();
    assert_eq!(b[0].label, "WO");
    assert!(b[0].is_active);
    assert_eq!(b[1].label, "\u{1F464}");
    assert_eq!(b[0].tooltip, "work");
    assert!(matches!(b[0].message, ProfileSwitcherMessage::SwitchProfile(x) if x == id));
    assert!(!b[1].is_active);
    assert_eq!(b.len(), 3);
    assert_eq!(b[2].label, "\u{2699}");
    assert_eq!(b[2].tooltip, "Manage Profiles");
    assert!(matches!(b[2].message, ProfileSwitcherMessage::OpenProfileManager));
    s.set_visible(false);
    assert!(s.buttons().is_empty());
}

#[test]
fn tree_structure_indents_by_depth() {
    let mut command = leaf("command");
    command.children = vec![leaf("command_name"), leaf("word")];
    let mut program = leaf("program");
    program.children = vec![command, leaf("comment")];
    let lines = print_tree_structure(&program);
    assert_eq!(lines, vec!["program", "  command", "    command_name", "    word", "  comment"]);
}

#[test]
fn quiz_accepts_any_letter_case() {
    let q = MCQManager::new();
    assert_eq!(q.get_next_question().unwrap(), "What is the capital of France?");
    assert!(q.submit_answer("Paris"));
    assert!(q.submit_answer("PARIS"));
    assert!(!q.submit_answer("Lyon"));
}

#[test]
fn customizer_form_shows_colors() {
    let mut c = ThemeCustomizer::new(vec!["default".to_string(), "dark".to_string()], custom());
    assert!(c.form().is_none());
    c.show();
    let f = c.form().unwrap();
    assert_eq!(f.base_theme, "default");
    assert_eq!(f.base_themes, vec!["default", "dark"]);
    assert_eq!(f.custom_name, "My Custom Theme");
    assert_eq!(f.main_colors.len(), 3);
    assert_eq!(f.main_colors[1].label, "Background");
    assert_eq!(f.main_colors[1].hex, "#1e1e1e");
    assert_eq!(f.main_colors[1].color, Rgb8 { r: 0x1e, g: 0x1e, b: 0x1e });
    assert_eq!(f.normal_colors.len(), 8);
    assert_eq!(f.normal_colors[1].label, "Red");
    assert_eq!(f.normal_colors[1].color_name, "red");
    assert_eq!(f.normal_colors[1].color, Rgb8 { r: 0xcd, g: 0x31, b: 0x31 });
    assert!(!f.normal_colors[1].bright);
    assert!(f.bright_colors[7].bright);
    assert_eq!(f.bright_colors[7].label, "White");
}

#[test]
fn clock_texts() {
    assert_eq!(clock_text_of(0, 0), "00:00:00");
    assert_eq!(clock_text_of(3_723_999, 0), "01:02:03");
    assert_eq!(clock_text_of(-1, 0), "23:59:59");
    assert_eq!(clock_text_of(0, 3600), "01:00:00");
    assert_eq!(clock_text_of(0, -3600), "23:00:00");
    assert_eq!(clock_text_of(86_400_000 * 3 + 45_296_000, 0), "12:34:56");
}

#[test]
fn block_timestamp_in_local_time() {
    let ms: i64 = 1_700_000_000_123;
    let b = Block { id: 1, content: BlockContent::Markdown { content: "x".to_string(), timestamp: ms } };
    let expected = chrono::DateTime::from_timestamp_millis(ms)
        .unwrap()
        .with_timezone(&chrono::Local)
        .format("%H:%M:%S")
        .to_string();
    assert_eq!(b.timestamp_text().unwrap(), expected);
}

#[test]
fn profile_rows_carry_their_buttons() {
    let mut ui = ProfileManagerUI::new();
    let mut p = UserProfile::default();
    p.name = "Work".to_string();
    let a = p.id;
    let mut q = UserProfile::default();
    q.name = "Home".to_string();
    let b = q.id;
    ui.update_profiles(vec![p, q], b, vec![a]);
    let rows = ui.profile_rows();
    assert_eq!(rows.len(), 2);
    let r = &rows[0];
    assert_eq!(r.buttons.len(), 4);
    assert_eq!(r.buttons[0].label, "Work");
    assert!(!r.buttons[0].highlighted);
    assert!(matches!(r.buttons[0].message, ProfileManagerMessage::SelectProfile(x) if x == a));
    assert_eq!(r.buttons[1].label, "Remove from Quick Switch");
    assert!(matches!(r.buttons[1].message, ProfileManagerMessage::ToggleQuickSwitch(x) if x == a));
    assert_eq!(r.buttons[2].label, "Duplicate");
    assert!(matches!(r.buttons[2].message, ProfileManagerMessage::DuplicateProfileClicked(x) if x == a));
    assert_eq!(r.buttons[3].label, "Delete");
    assert!(matches!(r.buttons[3].message, ProfileManagerMessage::DeleteProfileClicked(x) if x == a));
    let r = &rows[1];
    assert!(r.is_active);
    assert!(r.buttons[0].highlighted);
    assert_eq!(r.buttons[1].label, "Add to Quick Switch");
    assert!(matches!(r.buttons[1].message, ProfileManagerMessage::ToggleQuickSwitch(x) if x == b));
}

#[test]
fn profile_form_and_close() {
    let mut ui = ProfileManagerUI::new();
    ui.update(ProfileManagerMessage::NewProfileNameChanged("Dev".to_string()));
    let inputs = ui.form_inputs();
    assert_eq!(inputs.len(), 2);
    assert_eq!(inputs[0].placeholder, "Profile Name");
    assert_eq!(inputs[0].value, "Dev");
    assert_eq!(inputs[1].placeholder, "Description (Optional)");
    assert_eq!(inputs[1].value, "");
    let m = inputs[1].field.message("notes".to_string());
    assert!(matches!(m, ProfileManagerMessage::NewProfileDescriptionChanged(ref t) if t == "notes"));
    ui.update(m);
    assert_eq!(ui.form_inputs()[1].value, "notes");
    assert!(matches!(ProfileField::Name.message("x".to_string()), ProfileManagerMessage::NewProfileNameChanged(ref t) if t == "x"));
    let create = ui.create_button();
    assert_eq!(create.label, "Create Profile");
    assert!(create.highlighted);
    match ui.update(create.message) {
        Some(ProfileRequest::CreateProfile(n, d)) => {
            assert_eq!(n, "Dev");
            assert_eq!(d.unwrap(), "notes");
        }
        _ => panic!("no request"),
    }
    let close = ui.close_button();
    assert_eq!(close.label, "Close");
    ui.show();
    ui.update(close.message);
    assert!(!ui.is_visible());
}

#[test]
fn block_context_menu_follows_the_toggle() {
    let b = Block::new_markdown(1, "x".to_string());
    let toggle = b.menu_button();
    assert_eq!(toggle.label, "...");
    assert_eq!(toggle.message, BlockMessage::ToggleContextMenu);
    assert!(b.context_menu(false).is_empty());
    let menu = b.context_menu(true);
    let labels: Vec<&str> = menu.iter().map(|e| e.label.as_str()).collect();
    assert_eq!(labels, vec!["Copy Command", "Copy Output", "Copy Both", "Share Block", "Re-input Command"]);
    let messages: Vec<BlockMessage> = menu.iter().map(|e| e.message).collect();
    assert_eq!(
        messages,
        vec![
            BlockMessage::CopyCommand,
            BlockMessage::CopyOutput,
            BlockMessage::CopyBoth,
            BlockMessage::ShareBlock,
            BlockMessage::ReinputCommand,
        ]
    );
}

#[test]
fn block_timestamp_at_the_ends_of_the_range() {
    let at = |ms: i64| Block { id: 1, content: BlockContent::Markdown { content: String::new(), timestamp: ms } };
    assert!(at(MAX_LOCAL_MILLIS).timestamp_text().is_some());
    assert!(at(MIN_LOCAL_MILLIS).timestamp_text().is_some());
    assert!(at(MAX_LOCAL_MILLIS + 1).timestamp_text().is_none());
    assert!(at(MIN_LOCAL_MILLIS - 1).timestamp_text().is_none());
    assert!(at(i64::MAX).timestamp_text().is_none());
    assert!(at(0).timestamp_text().is_some());
    assert!(chrono::DateTime::from_timestamp_millis(MAX_LOCAL_MILLIS).is_some());
    assert!(chrono::DateTime::from_timestamp_millis(MAX_LOCAL_MILLIS + 1).is_none());
    assert!(chrono::DateTime::from_timestamp_millis(MIN_LOCAL_MILLIS).is_some());
    assert!(chrono::DateTime::from_timestamp_millis(MIN_LOCAL_MILLIS - 1).is_none());
}
