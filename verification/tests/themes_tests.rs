use warp_terminal::settings::theme_editor::{ThemeEditor, ThemeEditorMessage};
use warp_terminal::color::{hex_slices_safe, is_dark_hex, parse_hex_color, rgb_to_hex, Rgb8};
use warp_terminal::config::theme::{ThemeColor, WarpTheme as HexTheme};
use warp_terminal::config::yaml_theme_manager::{ThemeManager as YamlThemeManager, DEFAULT_DARK_THEME_YAML, DEFAULT_LIGHT_THEME_YAML};
use warp_terminal::themes::{theme_file_name, ThemeManager, WarpTheme, F01, F09, F1};

#[test]
fn builtin_themes() {
    let dark = WarpTheme::default_dark();
    assert!(dark.is_dark_theme());
    assert_eq!(dark.name, "Default Dark");
    assert_eq!(dark.get_background_color().r, F01);
    assert_eq!(dark.get_foreground_color().g, F09);
    let light = WarpTheme::from_name("Default Light");
    assert!(!light.is_dark_theme());
    assert_eq!(light.get_background_color().r, F09);
    assert_eq!(WarpTheme::from_name("Solarized").name, "Default Dark");
}

#[test]
fn terminal_colors_and_fallback() {
    let t = WarpTheme::default_dark();
    let bright_red = t.get_terminal_color("red", true);
    assert_eq!((bright_red.r, bright_red.g, bright_red.b), (F1, 0, 0));
    let missing = t.get_color("no_such_colour");
    assert_eq!((missing.r, missing.g, missing.b), (0, 0, 0));
    assert_eq!(t.get_block_background_color(true), t.get_color("block_background_dark"));
}

#[test]
fn theme_manager_switching() {
    let mut m = ThemeManager::new("themes".to_string());
    assert_eq!(m.get_current_theme().name, "Default Dark");
    assert_eq!(m.set_current_theme("Default Light"), Ok(()));
    assert_eq!(m.get_current_theme().name, "Default Light");
    assert_eq!(m.set_current_theme("Nope"), Err("Theme 'Nope' not found.".to_string()));
    let mut names = m.get_available_themes();
    names.sort();
    assert_eq!(names, vec!["Default Dark".to_string(), "Default Light".to_string()]);
    let mut custom = WarpTheme::default_light();
    custom.name = "Mine".to_string();
    m.add_theme(custom);
    assert_eq!(m.get_available_themes().len(), 3);
}

#[test]
fn theme_file_names() {
    assert_eq!(theme_file_name("Default Dark"), "default_dark.yaml");
    assert_eq!(theme_file_name("My Theme 2"), "my_theme_2.yaml");
    let m = ThemeManager::new("themes".to_string());
    assert_eq!(m.theme_path("Default Light"), "themes/default_light.yaml");
}

#[test]
fn hex_colours() {
    assert_eq!(parse_hex_color("#1E1E1E"), Some(Rgb8 { r: 30, g: 30, b: 30 }));
    assert_eq!(parse_hex_color("##ff8000"), Some(Rgb8 { r: 255, g: 128, b: 0 }));
    assert_eq!(parse_hex_color("#12345"), None);
    assert_eq!(parse_hex_color("#zz0000"), None);
    assert!(is_dark_hex("#1E1E1E"));
    assert!(!is_dark_hex("#FFFFFF"));
    assert!(is_dark_hex("#E931FF"));
    assert_eq!(rgb_to_hex(Rgb8 { r: 255, g: 10, b: 0 }), "#ff0a00");
    assert!(hex_slices_safe("#123456"));
    assert!(!hex_slices_safe("#1é345"));
}

#[test]
fn hex_theme_colours() {
    let t = HexTheme::default_dark();
    assert_eq!(t.get_background_color(), ThemeColor::Rgb(Rgb8 { r: 30, g: 30, b: 30 }));
    let mut broken = HexTheme::default_dark();
    broken.accent = "oops".to_string();
    assert_eq!(broken.get_accent_color(), ThemeColor::DefaultAccent);
    broken.command_background = "x".to_string();
    assert_eq!(broken.get_command_background_color(false), ThemeColor::LightCommandBackground);
    assert_eq!(broken.get_output_background_color(true), ThemeColor::Rgb(Rgb8 { r: 30, g: 30, b: 30 }));
}

#[test]
fn yaml_theme_manager_starts_empty() {
    let mut m = YamlThemeManager::new();
    assert!(m.get_theme_names().is_empty());
    assert_eq!(m.get_active_theme().name, "Default Dark");
    assert!(!m.set_active_theme("Default Light"));
    assert!(m.get_theme_by_name("Default Light").is_none());
    assert!(DEFAULT_DARK_THEME_YAML.contains("name: Default Dark"));
    assert!(DEFAULT_LIGHT_THEME_YAML.contains("background: \"#FFFFFF\""));
}

#[test]
fn theme_editor_view_model() {
    let mut e = ThemeEditor::new(YamlThemeManager::new());
    let (names, selected) = e.theme_choice();
    assert!(names.is_empty());
    assert_eq!(selected, "Default Dark");
    let rows = e.rows();
    assert_eq!(rows.len(), 6);
    assert_eq!(rows[0].0, "Background");
    assert_eq!(rows[0].1, "background");
    assert_eq!(rows[0].2, "#1E1E1E");
    e.update(ThemeEditorMessage::EditColor(rows[3].1.clone(), "#101010".to_string()));
    let after = e.rows();
    assert_eq!(after[3].2, "#101010");
    assert_eq!(after[2].2, rows[2].2);
    let buttons = e.buttons();
    let labels: Vec<&str> = buttons.iter().map(|b| b.0.as_str()).collect();
    assert_eq!(labels, vec!["Save", "Cancel", "Import", "Export"]);
    assert!(matches!(buttons[1].1, ThemeEditorMessage::CancelChanges));
    e.update(ThemeEditorMessage::CancelChanges);
    assert_eq!(e.rows()[3].2, "#333333");
}
