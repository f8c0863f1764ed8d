//! Views of the Model Context Protocol panel.
pub mod mcp;
