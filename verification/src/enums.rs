//! The command and motion model: closed tagged-variant sets describing what
//! the editor should do and where, decoupled from how, plus the undo
//! classification tags and their coalescing rule.

use crate::line_buffer::is_whitespace;
use crate::line_buffer::char_is_whitespace;
use vstd::prelude::*;

verus! {

/// Valid ways a line-reading session can end.
#[derive(Debug)]
pub enum Signal {
    /// Entry succeeded with the provided content.
    Success(String),
    /// Entry was aborted, interrupting the current edit.
    CtrlC,
    /// End of input: the whole interactive session should stop.
    CtrlD,
}

/// How the destination of a motion is computed from the current cursor.
#[derive(Clone, Copy, Debug, PartialEq, Eq, Structural)]
pub enum MotionKind {
    MoveLeft,
    MoveRight,
    MoveWordLeft,
    MoveWordRight,
    MoveBigWordLeft,
    MoveBigWordRight,
    MoveWordRightEnd,
    MoveBigWordRightEnd,
    MoveToLineStart,
    MoveToLineEnd,
    MoveToStart,
    MoveToEnd,
    MoveLineUp,
    MoveLineDown,
    /// Scan for a literal character; `inclusive` places the destination just
    /// past it, `forward` picks the scan direction.
    MoveUntilChar { c: char, inclusive: bool, forward: bool },
    /// Jump to an explicit position (clamped to the buffer).
    MoveToPosition(usize),
}

/// What to do with the range between the cursor and a motion destination.
#[derive(Clone, Copy, Debug, PartialEq, Eq, Structural)]
pub enum MotionAction {
    /// Just move the cursor, anchoring a selection when `select` is set.
    MoveCursor { select: bool },
    /// Copy the range into the local clipboard slot without removing it.
    Copy,
    /// Copy the range into the local clipboard slot and remove it.
    Cut,
    /// Remove the range without touching any clipboard.
    Delete,
}

/// The two operations on the text between a matching delimiter pair.
#[derive(Clone, Copy, Debug, PartialEq, Eq, Structural)]
pub enum PairAction {
    CutInside,
    YankInside,
}

/// Editing actions which can be mapped to key bindings; executed by
/// [`crate::Editor::run_edit_command`].
#[derive(Clone, Debug, PartialEq, Eq)]
pub enum EditCommand {
    /// Insert the given character at the cursor.
    InsertChar(char),
    /// Insert the given string at the cursor.
    InsertString(String),
    /// Insert a line break at the cursor.
    InsertNewline,
    /// Replace the grapheme under the cursor by the given character.
    ReplaceChar(char),
    /// Replace the given number of graphemes under the cursor by the string.
    ReplaceChars(usize, String),
    /// Compute a destination from `motion` and apply `action` to the range
    /// between the cursor and that destination.
    Motion { motion: MotionKind, action: MotionAction },
    /// Delete one grapheme to the left.
    Backspace,
    /// Delete one grapheme to the right.
    Delete,
    /// Operate on the text inside the innermost matching delimiter pair.
    OperateInsidePair { left_char: char, right_char: char, action: PairAction },
    /// Step back in the undo history.
    Undo,
    /// Step forward in the undo history.
    Redo,
    /// Swap the two graphemes around the cursor.
    SwapGraphemes,
    /// Swap the word under the cursor with the following word.
    SwapWords,
    /// Uppercase the word under the cursor.
    UppercaseWord,
    /// Lowercase the word under the cursor.
    LowercaseWord,
    /// Toggle the case of the character under the cursor and advance.
    SwitchcaseChar,
    /// Uppercase the character under the cursor and advance.
    CapitalizeChar,
    /// Select the whole buffer.
    SelectAll,
    /// Clear the whole buffer.
    Clear,
    /// Remove everything from the cursor to the end of the line.
    ClearToLineEnd,
    /// Cut the active selection into the local clipboard slot.
    CutSelection,
    /// Copy the active selection into the local clipboard slot.
    CopySelection,
    /// Paste the local clipboard slot at the cursor.
    PasteCutBuffer,
    /// Cut the active selection into the system clipboard slot.
    CutSelectionSystem,
    /// Copy the active selection into the system clipboard slot.
    CopySelectionSystem,
    /// Paste the system clipboard slot at the cursor.
    PasteSystem,
}

/// The coarse classes of edit commands, used to group edits on the undo
/// stack and to decide when the selection anchor is dropped.
#[derive(Clone, Copy, Debug, PartialEq, Eq, Structural)]
pub enum EditType {
    /// Cursor movement, selecting or not.
    MoveCursor { select: bool },
    /// Undo or redo themselves.
    UndoRedo,
    /// Commands that may change the text.
    EditText,
    /// Commands with no effect on the buffer.
    NoOp,
}

impl EditCommand {
    /// The class of this command, as [`Self::edit_type`] computes it.
    pub open spec fn edit_type_spec(&self) -> EditType {
        match self {
            EditCommand::Motion { motion: _, action: MotionAction::MoveCursor { select } } =>
                EditType::MoveCursor { select: *select },
            EditCommand::Motion { motion: _, action: MotionAction::Copy } => EditType::NoOp,
            EditCommand::Motion { motion: _, action: _ } => EditType::EditText,
            EditCommand::SelectAll => EditType::MoveCursor { select: true },
            EditCommand::Undo | EditCommand::Redo => EditType::UndoRedo,
            EditCommand::CopySelection | EditCommand::CopySelectionSystem => EditType::NoOp,
            _ => EditType::EditText,
        }
    }

    /// Classifies the command: whether it moves the cursor, edits text,
    /// performs undo/redo, or leaves the buffer alone.  The class decides
    /// whether the selection anchor survives and how the edit is grouped
    /// for undo.
    #[verifier::when_used_as_spec(edit_type_spec)]
    pub fn edit_type(&self) -> (r: EditType)
        ensures
            r == self.edit_type_spec(),
    {
        match self {
            EditCommand::Motion { motion: _, action } => match action {
                MotionAction::MoveCursor { select } => EditType::MoveCursor { select: *select },
                MotionAction::Copy => EditType::NoOp,
                MotionAction::Cut => EditType::EditText,
                MotionAction::Delete => EditType::EditText,
            },
            EditCommand::SelectAll => EditType::MoveCursor { select: true },
            EditCommand::Undo | EditCommand::Redo => EditType::UndoRedo,
            EditCommand::CopySelection | EditCommand::CopySelectionSystem => EditType::NoOp,
            EditCommand::InsertChar(_)
            | EditCommand::InsertString(_)
            | EditCommand::InsertNewline
            | EditCommand::ReplaceChar(_)
            | EditCommand::ReplaceChars(_, _)
            | EditCommand::Backspace
            | EditCommand::Delete
            | EditCommand::OperateInsidePair { .. }
            | EditCommand::SwapGraphemes
            | EditCommand::SwapWords
            | EditCommand::UppercaseWord
            | EditCommand::LowercaseWord
            | EditCommand::SwitchcaseChar
            | EditCommand::CapitalizeChar
            | EditCommand::Clear
            | EditCommand::ClearToLineEnd
            | EditCommand::CutSelection
            | EditCommand::PasteCutBuffer
            | EditCommand::CutSelectionSystem
            | EditCommand::PasteSystem => EditType::EditText,
        }
    }
}

/// Every committed line change carries an `UndoBehavior` tag; consecutive
/// tags decide whether the change merges into the previous undo point or
/// opens a new one.
#[derive(Clone, Copy, Debug)]
pub enum UndoBehavior {
    /// A character was inserted (the character itself).
    InsertCharacter(char),
    /// Backspace removed a grapheme; the tag holds its first character.
    Backspace(Option<char>),
    /// Delete removed a grapheme; the tag holds its first character.
    Delete(Option<char>),
    /// Only the cursor moved.
    MoveCursor,
    /// The history was navigated.
    HistoryNavigation,
    /// An action that always forms its own undo point.
    CreateUndoPoint,
    /// Undo and redo themselves; they leave the stack's entries alone.
    UndoRedo,
}

impl UndoBehavior {
    /// The coalescing rule, as [`Self::create_undo_point_after`] computes
    /// it.
    pub open spec fn create_undo_point_after_spec(&self, previous: &UndoBehavior) -> bool {
        match (previous, self) {
            (_, UndoBehavior::MoveCursor) => false,
            (UndoBehavior::HistoryNavigation, UndoBehavior::HistoryNavigation) => false,
            (UndoBehavior::InsertCharacter(c_prev), UndoBehavior::InsertCharacter(c_new)) => (
            *c_prev == '\n' || *c_prev == '\r') || (!is_whitespace(*c_prev) && is_whitespace(
                *c_new,
            )),
            (UndoBehavior::Backspace(Some(c_prev)), UndoBehavior::Backspace(Some(c_new))) => (
            *c_new == '\n' || *c_new == '\r') || (is_whitespace(*c_prev) && !is_whitespace(
                *c_new,
            )),
            (UndoBehavior::Backspace(_), UndoBehavior::Backspace(_)) => false,
            (UndoBehavior::Delete(Some(c_prev)), UndoBehavior::Delete(Some(c_new))) => (*c_new
                == '\n' || *c_new == '\r') || (is_whitespace(*c_prev) && !is_whitespace(*c_new)),
            (UndoBehavior::Delete(_), UndoBehavior::Delete(_)) => false,
            (_, _) => true,
        }
    }

    /// Whether an edit tagged `self` opens a new undo point after one
    /// tagged `previous`, or merges into it.  Cursor moves always merge;
    /// runs of insertions, backspaces and deletes merge within a word but
    /// split at line breaks and word boundaries; anything else opens a new
    /// point.
    #[verifier::when_used_as_spec(create_undo_point_after_spec)]
    pub fn create_undo_point_after(&self, previous: &UndoBehavior) -> (r: bool)
        ensures
            r == self.create_undo_point_after_spec(previous),
    {
        match (previous, self) {
            (_, UndoBehavior::MoveCursor) => false,
            (UndoBehavior::HistoryNavigation, UndoBehavior::HistoryNavigation) => false,
            (UndoBehavior::InsertCharacter(c_prev), UndoBehavior::InsertCharacter(c_new)) => (
            *c_prev == '\n' || *c_prev == '\r') || (!char_is_whitespace(*c_prev)
                && char_is_whitespace(*c_new)),
            (UndoBehavior::Backspace(Some(c_prev)), UndoBehavior::Backspace(Some(c_new))) => (
            *c_new == '\n' || *c_new == '\r') || (char_is_whitespace(*c_prev)
                && !char_is_whitespace(*c_new)),
            (UndoBehavior::Backspace(_), UndoBehavior::Backspace(_)) => false,
            (UndoBehavior::Delete(Some(c_prev)), UndoBehavior::Delete(Some(c_new))) => (*c_new
                == '\n' || *c_new == '\r') || (char_is_whitespace(*c_prev) && !char_is_whitespace(
                *c_new,
            )),
            (UndoBehavior::Delete(_), UndoBehavior::Delete(_)) => false,
            (_, _) => true,
        }
    }
}

/// Actions a full line editor built on this engine reacts to; the editing
/// engine itself consumes only the [`EditCommand`] values carried inside.
#[derive(Debug, PartialEq, Eq)]
pub enum ReedlineEvent {
    /// No-op event.
    NoOp,
    /// Complete the history hint fully.
    HistoryHintComplete,
    /// Complete a single token of the history hint.
    HistoryHintWordComplete,
    /// End-of-line event: on an empty line end the session.
    CtrlD,
    /// Interrupt: abort the current entry.
    CtrlC,
    /// Clear the screen, keeping the scrollback.
    ClearScreen,
    /// Clear the screen and the scrollback buffer.
    ClearScrollback,
    /// Handle the enter key.
    Enter,
    /// Submit the buffer unconditionally.
    Submit,
    /// Submit at the end of the complete text, otherwise insert a newline.
    SubmitOrNewline,
    /// Escape key.
    Esc,
    /// Mouse event.
    Mouse,
    /// The terminal was resized to the given width and height.
    Resize(u16, u16),
    /// Run these commands in the editor.
    Edit(Vec<EditCommand>),
    /// Trigger a full repaint.
    Repaint,
    /// Navigate to the previous historic buffer.
    PreviousHistory,
    /// Move up a line, or into the previous historic buffer.
    Up,
    /// Move down a line, or into the next historic buffer.
    Down,
    /// Move right, or accept a completion.
    Right,
    /// Move left.
    Left,
    /// Navigate to the next historic buffer.
    NextHistory,
    /// Search the history for a string.
    SearchHistory,
    /// A chain of events resolved in order.
    Multiple(Vec<ReedlineEvent>),
    /// The first applicable event of the list.
    UntilFound(Vec<ReedlineEvent>),
    /// Activate the menu with the given name.
    Menu(String),
    /// Next menu element.
    MenuNext,
    /// Previous menu element.
    MenuPrevious,
    /// Move up in the menu.
    MenuUp,
    /// Move down in the menu.
    MenuDown,
    /// Move left in the menu.
    MenuLeft,
    /// Move right in the menu.
    MenuRight,
    /// Next menu page.
    MenuPageNext,
    /// Previous menu page.
    MenuPagePrevious,
    /// Run a whole host command bound to a key.
    ExecuteHostCommand(String),
    /// Open the external text editor.
    OpenEditor,
    /// Drop the current text selection.
    ResetSelection,
}

} // verus!
