//! Settings editors: key bindings, theme colours and YAML theme files.
pub mod keybinding_editor;
pub mod theme_editor;
pub mod yaml_theme_ui;
