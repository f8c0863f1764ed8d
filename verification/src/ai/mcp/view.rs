pub mod collection;
pub mod editor;
pub mod roles;
