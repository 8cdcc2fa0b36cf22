//! The editing core of a character-sheet editor: the document and its
//! commands, the undo history, the shared placement preview, the state of the
//! satellite windows, and the dispatch of menu and shortcut actions.

pub mod json;
pub mod text;
pub mod placement;
pub mod character_data;
pub mod history;
pub mod menu;
pub mod events;
pub mod app_state;
pub mod windows;
