//! Core editing engine for a readline-style line editor.
//!
//! The crate owns the text buffer with its cursor, grapheme- and word-aware
//! navigation, the selection anchor, two clipboard slots, and the undo/redo
//! stack with its coalescing policy.  A host drives the engine by submitting
//! [`EditCommand`] values to the [`Editor`]; terminal I/O, key binding
//! resolution and rendering live outside this crate.

pub mod clipboard;
pub mod edit_stack;
pub mod editor;
pub mod enums;
pub mod line_buffer;

pub use clipboard::Clipboard;
pub use clipboard::ClipboardMode;
pub use edit_stack::EditStack;
pub use editor::insert_clipboard_content_before;
pub use editor::Editor;
pub use enums::EditCommand;
pub use enums::EditType;
pub use enums::MotionAction;
pub use enums::MotionKind;
pub use enums::PairAction;
pub use enums::ReedlineEvent;
pub use enums::Signal;
pub use enums::UndoBehavior;
pub use line_buffer::LineBuffer;
