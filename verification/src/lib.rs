pub mod text;
pub mod color;
pub mod ranking;
pub mod fuzzy;
pub mod fuzzy_match;
pub mod table;
pub mod ai;
pub mod ids;
pub mod input_block;
pub mod input_block_integration;
pub mod input_block_example;
pub mod agent_mode_eval;
pub mod asset_macro;
pub mod command;
pub mod integration;
pub mod languages;
pub mod mcq;
pub mod resources;
pub mod sum_tree;
pub mod syntax_tree;
pub mod lpc;
pub mod markdown_parser;
pub mod natural_language_detection;
pub mod config;
pub mod input;
pub mod command_palette;
pub mod themes;
pub mod clock;
pub mod profiles;
pub mod virtual_fs;
pub mod shell;
pub mod blocks;
pub mod block;
pub mod collaboration;
pub mod drive;
pub mod editor;
pub mod prompt;
pub mod preferences;
pub mod profile_manager_ui;
pub mod profile_switcher;
pub mod theme_customizer;
pub mod theme_selector;
pub mod settings;
pub mod terminal;
pub mod graphql;
pub mod serve_wasm;
pub mod renderer;
pub mod api;
