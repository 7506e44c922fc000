//! Editing engine for an ordered list of source/target path redirects, with a
//! bounded undo/redo history for every editable field, plus the glyph table of
//! the icon font used to decorate the editor's controls.

pub mod icon;
pub mod redirect;
pub mod redirect_editor;
pub mod text_history;

pub use icon::Icon;
pub use redirect::{RedirectEditActionField, RedirectError, RedirectList, RedirectRule};
pub use redirect_editor::{EditAction, RedirectEditor, RedirectEditorRow, HISTORY_CAPACITY};
pub use text_history::TextHistory;
