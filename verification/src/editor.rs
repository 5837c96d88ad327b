//! Stateful editor executing changes to the underlying [`LineBuffer`].
//!
//! In comparison to the state-less [`LineBuffer`], the [`Editor`] keeps
//! track of the undo/redo history, the selection anchor, and the two
//! clipboard slots, and exposes a single command-execution entry point.

use crate::clipboard::Clipboard;
use crate::clipboard::ClipboardMode;
use crate::clipboard::ClipboardModel;
use crate::edit_stack::stack_insert;
use crate::edit_stack::stack_redo;
use crate::edit_stack::stack_undo;
use crate::edit_stack::EditStack;
use crate::edit_stack::StackModel;
use crate::enums::EditCommand;
use crate::enums::EditType;
use crate::enums::MotionAction;
use crate::enums::MotionKind;
use crate::enums::PairAction;
use crate::enums::UndoBehavior;
use crate::line_buffer::big_word_left_from;
use crate::line_buffer::big_word_right_end_from;
use crate::line_buffer::big_word_right_start_from;
use crate::line_buffer::clamp_boundary;
use crate::line_buffer::grapheme_left_at;
use crate::line_buffer::grapheme_right_at;
use crate::line_buffer::insert_at;
use crate::line_buffer::is_boundary;
use crate::line_buffer::line_down_target;
use crate::line_buffer::line_end_from;
use crate::line_buffer::line_start_from;
use crate::line_buffer::line_up_target;
use crate::line_buffer::matching_pair;
use crate::line_buffer::remove_range;
use crate::line_buffer::cursor_after_remove;
use crate::line_buffer::scan_char_left;
use crate::line_buffer::scan_char_right;
use crate::line_buffer::word_left_from;
use crate::line_buffer::word_right_end_from;
use crate::line_buffer::word_right_start_from;
use crate::line_buffer::BufferModel;
use crate::line_buffer::LineBuffer;
use vstd::prelude::*;
use vstd::string::StrSliceExecFns;

verus! {

/// A spec-level snapshot of the whole editor state.
#[verifier::ext_equal]
pub ghost struct EditorModel {
    /// The live buffer: text and insertion point.
    pub buf: BufferModel,
    /// The fixed endpoint of an in-progress selection, if any.
    pub anchor: Option<int>,
    /// The local clipboard slot.
    pub cut: ClipboardModel,
    /// The slot a host may mirror into the system clipboard.
    pub system: ClipboardModel,
    /// The undo history.
    pub stack: StackModel,
    /// The tag of the last committed change, for coalescing.
    pub last_undo: UndoBehavior,
}

// === Model-level semantics =================================================

/// The destination of a motion, computed from the current buffer state.
pub open spec fn motion_target(b: BufferModel, motion: MotionKind) -> int {
    let s = b.text;
    let n = s.len() as int;
    match motion {
        MotionKind::MoveLeft => grapheme_left_at(s, b.cursor),
        MotionKind::MoveRight => grapheme_right_at(s, b.cursor),
        MotionKind::MoveWordLeft => word_left_from(s, b.cursor),
        MotionKind::MoveWordRight => word_right_start_from(s, b.cursor),
        MotionKind::MoveBigWordLeft => big_word_left_from(s, b.cursor),
        MotionKind::MoveBigWordRight => big_word_right_start_from(s, b.cursor),
        MotionKind::MoveWordRightEnd => word_right_end_from(s, b.cursor),
        MotionKind::MoveBigWordRightEnd => big_word_right_end_from(s, b.cursor),
        MotionKind::MoveToLineStart => line_start_from(s, b.cursor),
        MotionKind::MoveToLineEnd => line_end_from(s, b.cursor),
        MotionKind::MoveToStart => 0,
        MotionKind::MoveToEnd => n,
        MotionKind::MoveLineUp => line_up_target(s, b.cursor),
        MotionKind::MoveLineDown => line_down_target(s, b.cursor),
        MotionKind::MoveUntilChar { c, inclusive, forward } => if forward {
            match scan_char_right(s, c, b.cursor + 1, n) {
                Some(i) => if inclusive {
                    if i + 1 > n {
                        n
                    } else {
                        i + 1
                    }
                } else {
                    i
                },
                None => n,
            }
        } else {
            match scan_char_left(s, c, b.cursor - 1, 0) {
                Some(i) => if inclusive {
                    i
                } else {
                    i + 1
                },
                None => 0,
            }
        },
        MotionKind::MoveToPosition(p) => if p > n {
            n
        } else {
            p as int
        },
    }
}

/// The editor after a motion command: the range between the cursor and the
/// motion destination (reordered ascending) is moved over, copied, cut or
/// deleted.
pub open spec fn handle_motion_model(
    m: EditorModel,
    motion: MotionKind,
    action: MotionAction,
) -> EditorModel {
    let s = m.buf.text;
    let start = m.buf.cursor;
    let dest = motion_target(m.buf, motion);
    let rs = if dest > start {
        start
    } else {
        dest
    };
    let re = if dest > start {
        dest
    } else {
        start
    };
    match action {
        MotionAction::MoveCursor { select } => EditorModel {
            buf: BufferModel { text: s, cursor: clamp_boundary(s, dest) },
            anchor: if select {
                if m.anchor is Some {
                    m.anchor
                } else {
                    Some(start)
                }
            } else {
                None
            },
            ..m
        },
        MotionAction::Copy => EditorModel {
            cut: ClipboardModel { text: s.subrange(rs, re), mode: ClipboardMode::Normal },
            ..m
        },
        MotionAction::Cut => EditorModel {
            buf: BufferModel {
                text: remove_range(s, rs, re),
                cursor: clamp_boundary(remove_range(s, rs, re), rs),
            },
            cut: ClipboardModel { text: s.subrange(rs, re), mode: ClipboardMode::Normal },
            ..m
        },
        MotionAction::Delete => EditorModel {
            buf: BufferModel {
                text: remove_range(s, rs, re),
                cursor: clamp_boundary(remove_range(s, rs, re), rs),
            },
            ..m
        },
    }
}

/// The active selection as an ascending range: the anchor and the cursor,
/// with the grapheme under the larger endpoint included.
pub open spec fn selection_of(m: EditorModel) -> Option<(int, int)> {
    let s = m.buf.text;
    let n = s.len() as int;
    match m.anchor {
        None => None,
        Some(a) => if m.buf.cursor > a {
            let g = grapheme_right_at(s, m.buf.cursor);
            let e = if g > n {
                n
            } else {
                g
            };
            Some((a, e))
        } else {
            let ac = if a > n {
                n
            } else {
                a
            };
            let g = grapheme_right_at(s, ac);
            let e = if g > n {
                n
            } else {
                g
            };
            Some((m.buf.cursor, e))
        },
    }
}

/// The editor after the selected range is removed and the anchor dropped;
/// the identity when no selection is active.
pub open spec fn delete_selection_model(m: EditorModel) -> EditorModel {
    match selection_of(m) {
        None => m,
        Some((s0, e0)) => EditorModel {
            buf: BufferModel {
                text: remove_range(m.buf.text, s0, e0),
                cursor: cursor_after_remove(m.buf.text, m.buf.cursor, s0, e0),
            },
            anchor: None,
            ..m
        },
    }
}

/// The editor after inserting `t` at the cursor (removing an active
/// selection first, as every insertion does).
pub open spec fn insert_model(m: EditorModel, t: Seq<char>) -> EditorModel {
    let m1 = delete_selection_model(m);
    EditorModel {
        buf: BufferModel {
            text: insert_at(m1.buf.text, m1.buf.cursor, t),
            cursor: clamp_boundary(
                insert_at(m1.buf.text, m1.buf.cursor, t),
                m1.buf.cursor + t.len(),
            ),
        },
        ..m1
    }
}

/// A buffer with `t` inserted at the cursor, the cursor just past it.
pub open spec fn buf_insert(b: BufferModel, t: Seq<char>) -> BufferModel {
    BufferModel {
        text: insert_at(b.text, b.cursor, t),
        cursor: clamp_boundary(insert_at(b.text, b.cursor, t), b.cursor + t.len()),
    }
}

/// A buffer with the grapheme right of the cursor removed.
pub open spec fn buf_delete_right(b: BufferModel) -> BufferModel {
    let r = grapheme_right_at(b.text, b.cursor);
    BufferModel {
        text: remove_range(b.text, b.cursor, r),
        cursor: cursor_after_remove(b.text, b.cursor, b.cursor, r),
    }
}

/// A buffer with the grapheme left of the cursor removed.
pub open spec fn buf_delete_left(b: BufferModel) -> BufferModel {
    let l = grapheme_left_at(b.text, b.cursor);
    BufferModel {
        text: remove_range(b.text, l, b.cursor),
        cursor: cursor_after_remove(b.text, b.cursor, l, b.cursor),
    }
}

/// A buffer with the `n` graphemes right of the cursor removed.
pub open spec fn buf_delete_right_n(b: BufferModel, n: nat) -> BufferModel
    decreases n,
{
    if n == 0 {
        b
    } else {
        buf_delete_right_n(buf_delete_right(b), (n - 1) as nat)
    }
}

/// The clipboard text as pasted in `Lines` mode: with a terminating line
/// feed appended if it lacks one.
pub open spec fn line_paste_text(t: Seq<char>) -> Seq<char> {
    if t.len() > 0 && t[t.len() - 1] == '\n' {
        t
    } else {
        t.push('\n')
    }
}

/// A buffer after pasting a clipboard slot before the cursor: `Normal`
/// content is inserted at the cursor; `Lines` content is inserted as a
/// whole line above the current one (cursor to line start, one line up,
/// then the text with a terminating line feed).
pub open spec fn paste_into(b: BufferModel, clip: ClipboardModel) -> BufferModel {
    if clip.mode is Normal {
        buf_insert(b, clip.text)
    } else {
        let c1 = line_start_from(b.text, b.cursor);
        let c2 = clamp_boundary(b.text, line_up_target(b.text, c1));
        buf_insert(BufferModel { text: b.text, cursor: c2 }, line_paste_text(clip.text))
    }
}

/// The editor after replacing the grapheme under the cursor by `c`.
pub open spec fn replace_char_model(m: EditorModel, c: char) -> EditorModel {
    EditorModel { buf: buf_insert(buf_delete_right(m.buf), seq![c]), ..m }
}

/// The editor after replacing `n` graphemes under the cursor by `t`.
pub open spec fn replace_chars_model(m: EditorModel, n: nat, t: Seq<char>) -> EditorModel {
    EditorModel { buf: buf_insert(buf_delete_right_n(m.buf, n), t), ..m }
}

/// The editor after pasting a clipboard slot (removing an active selection
/// first).
pub open spec fn paste_model(m: EditorModel, from_system: bool) -> EditorModel {
    let m1 = delete_selection_model(m);
    let clip = if from_system {
        m1.system
    } else {
        m1.cut
    };
    EditorModel { buf: paste_into(m1.buf, clip), ..m1 }
}

/// The editor after the selected range is cut into a clipboard slot; the
/// identity when no selection is active.
pub open spec fn cut_selection_model(m: EditorModel, to_system: bool) -> EditorModel {
    match selection_of(m) {
        None => m,
        Some((s0, e0)) => {
            let clip = ClipboardModel {
                text: m.buf.text.subrange(s0, e0),
                mode: ClipboardMode::Normal,
            };
            EditorModel {
                buf: BufferModel {
                    text: remove_range(m.buf.text, s0, e0),
                    cursor: cursor_after_remove(m.buf.text, m.buf.cursor, s0, e0),
                },
                anchor: None,
                cut: if to_system {
                    m.cut
                } else {
                    clip
                },
                system: if to_system {
                    clip
                } else {
                    m.system
                },
                ..m
            }
        },
    }
}

/// The editor after the selected range is copied into a clipboard slot;
/// the identity when no selection is active.
pub open spec fn copy_selection_model(m: EditorModel, to_system: bool) -> EditorModel {
    match selection_of(m) {
        None => m,
        Some((s0, e0)) => {
            let clip = ClipboardModel {
                text: m.buf.text.subrange(s0, e0),
                mode: ClipboardMode::Normal,
            };
            EditorModel {
                cut: if to_system {
                    m.cut
                } else {
                    clip
                },
                system: if to_system {
                    clip
                } else {
                    m.system
                },
                ..m
            }
        },
    }
}

/// The editor after a backspace: the selection if one is active, otherwise
/// the grapheme left of the cursor, is removed.
pub open spec fn backspace_model(m: EditorModel) -> EditorModel {
    if m.anchor is Some {
        delete_selection_model(m)
    } else {
        EditorModel { buf: buf_delete_left(m.buf), ..m }
    }
}

/// The editor after a delete: the selection if one is active, otherwise
/// the grapheme right of the cursor, is removed.
pub open spec fn delete_model(m: EditorModel) -> EditorModel {
    if m.anchor is Some {
        delete_selection_model(m)
    } else {
        EditorModel { buf: buf_delete_right(m.buf), ..m }
    }
}

/// The editor after a cut-inside operation: when an enclosing pair exists,
/// its non-empty interior moves to the local clipboard slot and the cursor
/// lands just after the opening delimiter; with no pair the editor is
/// untouched.
pub open spec fn cut_inside_model(m: EditorModel, lc: char, rc: char) -> EditorModel {
    match matching_pair(m.buf.text, lc, rc, m.buf.cursor) {
        None => m,
        Some((lp, rp)) => if lp + 1 < rp {
            EditorModel {
                buf: BufferModel {
                    text: remove_range(m.buf.text, lp + 1, rp),
                    cursor: clamp_boundary(remove_range(m.buf.text, lp + 1, rp), lp + 1),
                },
                cut: ClipboardModel {
                    text: m.buf.text.subrange(lp + 1, rp),
                    mode: ClipboardMode::Normal,
                },
                ..m
            }
        } else {
            EditorModel {
                buf: BufferModel { text: m.buf.text, cursor: clamp_boundary(m.buf.text, lp + 1) },
                ..m
            }
        },
    }
}

/// The editor after a yank-inside operation: only the local clipboard slot
/// may change; buffer and cursor never do.
pub open spec fn yank_inside_model(m: EditorModel, lc: char, rc: char) -> EditorModel {
    match matching_pair(m.buf.text, lc, rc, m.buf.cursor) {
        None => m,
        Some((lp, rp)) => if lp + 1 < rp {
            EditorModel {
                cut: ClipboardModel {
                    text: m.buf.text.subrange(lp + 1, rp),
                    mode: ClipboardMode::Normal,
                },
                ..m
            }
        } else {
            m
        },
    }
}

/// The undo bookkeeping after a change tagged `ub`: undo and redo leave the
/// stack's entries alone; an edit that merges replaces the top snapshot
/// with the live buffer; any other edit pushes the live buffer as a new
/// undo point.
pub open spec fn undo_update(
    stack: StackModel,
    last: UndoBehavior,
    buf: BufferModel,
    ub: UndoBehavior,
) -> (StackModel, UndoBehavior) {
    if ub is UndoRedo {
        (stack, UndoBehavior::UndoRedo)
    } else if !ub.create_undo_point_after_spec(&last) {
        (stack_insert(stack_undo(stack), buf), ub)
    } else {
        (stack_insert(stack, buf), ub)
    }
}

/// The editor after an undo: the stack index steps back and the snapshot
/// there becomes the live buffer.
pub open spec fn undo_model(m: EditorModel) -> EditorModel {
    let st = stack_undo(m.stack);
    EditorModel { buf: st.entries[st.index], stack: st, ..m }
}

/// The editor after a redo: the stack index steps forward and the snapshot
/// there becomes the live buffer.
pub open spec fn redo_model(m: EditorModel) -> EditorModel {
    let st = stack_redo(m.stack);
    EditorModel { buf: st.entries[st.index], stack: st, ..m }
}

/// A buffer with the two graphemes around the cursor swapped, as
/// [`LineBuffer::swap_graphemes`] does it.
pub open spec fn buf_swap_graphemes(b: BufferModel) -> BufferModel {
    let s = b.text;
    let i0 = if b.cursor == 0 {
        grapheme_right_at(s, 0)
    } else if b.cursor == s.len() {
        grapheme_left_at(s, s.len() as int)
    } else {
        b.cursor
    };
    let l = grapheme_left_at(s, i0);
    let r = grapheme_right_at(s, i0);
    let t = s.subrange(0, l) + s.subrange(i0, r) + s.subrange(l, i0) + s.subrange(
        r,
        s.len() as int,
    );
    BufferModel { text: t, cursor: clamp_boundary(t, r) }
}

/// A buffer with the word under the cursor swapped with the following
/// word, as [`LineBuffer::swap_words`] does it.
pub open spec fn buf_swap_words(b: BufferModel) -> BufferModel {
    let s = b.text;
    let (a1, b1) = crate::line_buffer::word_range_at(s, b.cursor);
    let a2 = crate::line_buffer::skip_whitespace_right(s, b1);
    let b2 = if a2 < s.len() {
        crate::line_buffer::skip_class_right(s, a2, crate::line_buffer::class_of(s[a2]))
    } else {
        a2
    };
    if a1 < b1 && a2 < b2 {
        let t = s.subrange(0, a1) + s.subrange(a2, b2) + s.subrange(b1, a2) + s.subrange(a1, b1)
            + s.subrange(b2, s.len() as int);
        BufferModel { text: t, cursor: clamp_boundary(t, b.cursor) }
    } else {
        b
    }
}

/// A buffer with the word under the cursor uppercased.
pub open spec fn buf_uppercase_word(b: BufferModel) -> BufferModel {
    let s = b.text;
    let (a, e) = crate::line_buffer::word_range_at(s, b.cursor);
    let t = s.subrange(0, a) + crate::line_buffer::upper_seq(s.subrange(a, e)) + s.subrange(
        e,
        s.len() as int,
    );
    BufferModel { text: t, cursor: clamp_boundary(t, b.cursor) }
}

/// A buffer with the word under the cursor lowercased.
pub open spec fn buf_lowercase_word(b: BufferModel) -> BufferModel {
    let s = b.text;
    let (a, e) = crate::line_buffer::word_range_at(s, b.cursor);
    let t = s.subrange(0, a) + crate::line_buffer::lower_seq(s.subrange(a, e)) + s.subrange(
        e,
        s.len() as int,
    );
    BufferModel { text: t, cursor: clamp_boundary(t, b.cursor) }
}

/// A buffer with the case of the character under the cursor toggled and
/// the cursor advanced past it.
pub open spec fn buf_switchcase_char(b: BufferModel) -> BufferModel {
    if b.cursor < b.text.len() {
        let t = b.text.update(b.cursor, crate::line_buffer::toggle_char(b.text[b.cursor]));
        BufferModel { text: t, cursor: clamp_boundary(t, grapheme_right_at(t, b.cursor)) }
    } else {
        b
    }
}

/// A buffer with the character under the cursor uppercased and the cursor
/// advanced past it.
pub open spec fn buf_capitalize_char(b: BufferModel) -> BufferModel {
    if b.cursor < b.text.len() {
        let t = b.text.update(b.cursor, crate::line_buffer::upper_char(b.text[b.cursor]));
        BufferModel { text: t, cursor: clamp_boundary(t, grapheme_right_at(t, b.cursor)) }
    } else {
        b
    }
}

/// The editor after cutting a caller-given range (reordered and clamped)
/// into the local clipboard slot.
pub open spec fn range_cut_model(m: EditorModel, start: int, end: int, copy_only: bool) -> (
    EditorModel) {
    let n = m.buf.text.len() as int;
    let a0 = if start <= end {
        start
    } else {
        end
    };
    let b0 = if start <= end {
        end
    } else {
        start
    };
    let a = if a0 > n {
        n
    } else {
        a0
    };
    let b = if b0 > n {
        n
    } else {
        b0
    };
    let clip = ClipboardModel { text: m.buf.text.subrange(a, b), mode: ClipboardMode::Normal };
    if copy_only {
        EditorModel { cut: clip, ..m }
    } else {
        EditorModel {
            buf: BufferModel {
                text: remove_range(m.buf.text, a, b),
                cursor: clamp_boundary(remove_range(m.buf.text, a, b), a),
            },
            cut: clip,
            ..m
        }
    }
}

/// The editor after deleting a caller-given range (reordered and clamped)
/// without touching any clipboard.
pub open spec fn range_delete_model(m: EditorModel, start: int, end: int) -> EditorModel {
    let n = m.buf.text.len() as int;
    let a0 = if start <= end {
        start
    } else {
        end
    };
    let b0 = if start <= end {
        end
    } else {
        start
    };
    let a = if a0 > n {
        n
    } else {
        a0
    };
    let b = if b0 > n {
        n
    } else {
        b0
    };
    EditorModel {
        buf: BufferModel {
            text: remove_range(m.buf.text, a, b),
            cursor: clamp_boundary(remove_range(m.buf.text, a, b), a),
        },
        ..m
    }
}

/// The first character of the grapheme right of the cursor, if any.
pub open spec fn right_char_of(b: BufferModel) -> Option<char> {
    if 0 <= b.cursor < b.text.len() {
        Some(b.text[b.cursor])
    } else {
        None
    }
}

/// The first character of the grapheme left of the cursor, if any.
pub open spec fn left_char_of(b: BufferModel) -> Option<char> {
    let l = grapheme_left_at(b.text, b.cursor);
    if l < b.cursor {
        Some(b.text[l])
    } else {
        None
    }
}

/// The undo tag attached to a command: character insertions, deletes and
/// backspaces carry what they touched (read from the pre-edit snapshot at
/// the stack's current index); cursor motions, undo/redo and everything
/// else carry their fixed tags.
pub open spec fn command_behavior(pre: EditorModel, cmd: &EditCommand) -> UndoBehavior {
    let snap = pre.stack.entries[pre.stack.index];
    match cmd {
        EditCommand::InsertChar(c) => UndoBehavior::InsertCharacter(*c),
        EditCommand::Delete => UndoBehavior::Delete(right_char_of(snap)),
        EditCommand::Backspace => UndoBehavior::Backspace(left_char_of(snap)),
        EditCommand::Undo | EditCommand::Redo => UndoBehavior::UndoRedo,
        _ => if cmd.edit_type_spec() matches EditType::MoveCursor { .. } {
            UndoBehavior::MoveCursor
        } else {
            UndoBehavior::CreateUndoPoint
        },
    }
}

/// The state changes a command makes before selection and undo
/// bookkeeping.
pub open spec fn command_apply(m: EditorModel, cmd: &EditCommand) -> EditorModel {
    match cmd {
        EditCommand::InsertChar(c) => insert_model(m, seq![*c]),
        EditCommand::InsertString(s) => insert_model(m, s@),
        EditCommand::InsertNewline => insert_model(m, seq!['\n']),
        EditCommand::ReplaceChar(c) => replace_char_model(m, *c),
        EditCommand::ReplaceChars(n, s) => replace_chars_model(m, *n as nat, s@),
        EditCommand::Motion { motion, action } => handle_motion_model(m, *motion, *action),
        EditCommand::Backspace => backspace_model(m),
        EditCommand::Delete => delete_model(m),
        EditCommand::OperateInsidePair { left_char, right_char, action } => match action {
            PairAction::CutInside => cut_inside_model(m, *left_char, *right_char),
            PairAction::YankInside => yank_inside_model(m, *left_char, *right_char),
        },
        EditCommand::Undo => undo_model(m),
        EditCommand::Redo => redo_model(m),
        EditCommand::SwapGraphemes => EditorModel { buf: buf_swap_graphemes(m.buf), ..m },
        EditCommand::SwapWords => EditorModel { buf: buf_swap_words(m.buf), ..m },
        EditCommand::UppercaseWord => EditorModel { buf: buf_uppercase_word(m.buf), ..m },
        EditCommand::LowercaseWord => EditorModel { buf: buf_lowercase_word(m.buf), ..m },
        EditCommand::SwitchcaseChar => EditorModel { buf: buf_switchcase_char(m.buf), ..m },
        EditCommand::CapitalizeChar => EditorModel { buf: buf_capitalize_char(m.buf), ..m },
        EditCommand::SelectAll => handle_motion_model(
            handle_motion_model(
                m,
                MotionKind::MoveToStart,
                MotionAction::MoveCursor { select: false },
            ),
            MotionKind::MoveToEnd,
            MotionAction::MoveCursor { select: true },
        ),
        EditCommand::Clear => EditorModel {
            buf: BufferModel { text: Seq::<char>::empty(), cursor: 0 },
            ..m
        },
        EditCommand::ClearToLineEnd => EditorModel {
            buf: BufferModel {
                text: remove_range(m.buf.text, m.buf.cursor, line_end_from(m.buf.text, m.buf.cursor)),
                cursor: cursor_after_remove(
                    m.buf.text,
                    m.buf.cursor,
                    m.buf.cursor,
                    line_end_from(m.buf.text, m.buf.cursor),
                ),
            },
            ..m
        },
        EditCommand::CutSelection => cut_selection_model(m, false),
        EditCommand::CopySelection => copy_selection_model(m, false),
        EditCommand::PasteCutBuffer => paste_model(m, false),
        EditCommand::CutSelectionSystem => cut_selection_model(m, true),
        EditCommand::CopySelectionSystem => copy_selection_model(m, true),
        EditCommand::PasteSystem => paste_model(m, true),
    }
}

/// The complete effect of one command: the command's own changes, then the
/// selection anchor dropped unless the command was a selecting cursor
/// motion, then the undo bookkeeping under the command's tag.
pub open spec fn run_model(m: EditorModel, cmd: &EditCommand) -> EditorModel {
    let m1 = command_apply(m, cmd);
    let m2 = if cmd.edit_type_spec() matches EditType::MoveCursor { select: true } {
        m1
    } else {
        EditorModel { anchor: None, ..m1 }
    };
    let ub = command_behavior(m, cmd);
    let (st, lu) = undo_update(m2.stack, m2.last_undo, m2.buf, ub);
    EditorModel { stack: st, last_undo: lu, ..m2 }
}

// === The editor ============================================================

/// The editing engine: a [`LineBuffer`] plus selection anchor, two
/// clipboard slots and the undo/redo stack.
pub struct Editor {
    line_buffer: LineBuffer,
    cut_buffer: Clipboard,
    system_clipboard: Clipboard,
    edit_stack: EditStack,
    last_undo_behavior: UndoBehavior,
    selection_anchor: Option<usize>,
}

impl Editor {
    pub closed spec fn model(&self) -> EditorModel {
        EditorModel {
            buf: self.line_buffer.model(),
            anchor: match self.selection_anchor {
                Some(a) => Some(a as int),
                None => None,
            },
            cut: self.cut_buffer.model(),
            system: self.system_clipboard.model(),
            stack: self.edit_stack.model(),
            last_undo: self.last_undo_behavior,
        }
    }

    pub open spec fn text(&self) -> Seq<char> {
        self.model().buf.text
    }

    pub open spec fn cursor(&self) -> int {
        self.model().buf.cursor
    }

    pub closed spec fn stack_wf(&self) -> bool {
        self.edit_stack.wf()
    }

    /// The editor invariant: the insertion point lies inside the buffer on
    /// a grapheme boundary, and the undo stack is well formed.
    pub open spec fn wf(&self) -> bool {
        &&& is_boundary(self.text(), self.cursor())
        &&& self.stack_wf()
    }

    /// Read access to the current [`LineBuffer`].
    pub fn line_buffer(&self) -> (r: &LineBuffer)
        ensures
            r.model() == self.model().buf,
    {
        &self.line_buffer
    }

    /// Read access to the local clipboard slot.
    pub fn cut_buffer(&self) -> (r: &Clipboard)
        ensures
            r.model() == self.model().cut,
    {
        &self.cut_buffer
    }

    /// Read access to the system clipboard slot.
    pub fn system_clipboard(&self) -> (r: &Clipboard)
        ensures
            r.model() == self.model().system,
    {
        &self.system_clipboard
    }

    /// The text of the current [`LineBuffer`].
    pub fn get_buffer(&self) -> (r: &str)
        ensures
            r@ == self.text(),
    {
        self.line_buffer.get_buffer()
    }

    /// The current insertion point.
    pub fn insertion_point(&self) -> (r: usize)
        ensures
            r == self.cursor(),
    {
        self.line_buffer.insertion_point()
    }

    pub fn is_empty(&self) -> (r: bool)
        ensures
            r == (self.text().len() == 0),
    {
        self.line_buffer.is_empty()
    }

    pub fn is_cursor_at_first_line(&self) -> (r: bool)
        requires
            self.wf(),
        ensures
            r == !crate::line_buffer::contains_newline(self.text(), 0, self.cursor()),
    {
        self.line_buffer.is_cursor_at_first_line()
    }

    pub fn is_cursor_at_last_line(&self) -> (r: bool)
        requires
            self.wf(),
        ensures
            r == !crate::line_buffer::contains_newline(
                self.text(),
                self.cursor(),
                self.text().len() as int,
            ),
    {
        self.line_buffer.is_cursor_at_last_line()
    }

    pub fn is_cursor_at_buffer_end(&self) -> (r: bool)
        ensures
            r == (self.cursor() == self.text().len()),
    {
        self.line_buffer.insertion_point() == self.line_buffer.len()
    }

    /// The destination of `motion` from the current cursor.
    pub fn motion_destination(&self, motion: MotionKind) -> (r: usize)
        requires
            self.wf(),
        ensures
            r == motion_target(self.model().buf, motion),
            r <= self.text().len(),
    {
        match motion {
            MotionKind::MoveLeft => self.line_buffer.grapheme_left_index(),
            MotionKind::MoveRight => self.line_buffer.grapheme_right_index(),
            MotionKind::MoveWordLeft => self.line_buffer.word_left_index(),
            MotionKind::MoveWordRight => self.line_buffer.word_right_start_index(),
            MotionKind::MoveBigWordLeft => self.line_buffer.big_word_left_index(),
            MotionKind::MoveBigWordRight => self.line_buffer.big_word_right_start_index(),
            MotionKind::MoveWordRightEnd => self.line_buffer.word_right_end_index(),
            MotionKind::MoveBigWordRightEnd => self.line_buffer.big_word_right_end_index(),
            MotionKind::MoveToLineStart => self.line_buffer.find_current_line_start(),
            MotionKind::MoveToLineEnd => self.line_buffer.find_current_line_end(),
            MotionKind::MoveToStart => 0,
            MotionKind::MoveToEnd => self.line_buffer.len(),
            MotionKind::MoveLineUp => self.line_buffer.line_up_index(),
            MotionKind::MoveLineDown => self.line_buffer.line_down_index(),
            MotionKind::MoveUntilChar { c, inclusive, forward } => {
                let n = self.line_buffer.len();
                if forward {
                    match self.line_buffer.find_char_right(c, false) {
                        Some(index) => if inclusive {
                            if index + 1 > n {
                                n
                            } else {
                                index + 1
                            }
                        } else {
                            index
                        },
                        None => n,
                    }
                } else {
                    match self.line_buffer.find_char_left(c, false) {
                        Some(index) => if inclusive {
                            index
                        } else {
                            index + 1
                        },
                        None => 0,
                    }
                }
            },
            MotionKind::MoveToPosition(pos) => {
                let n = self.line_buffer.len();
                if pos > n {
                    n
                } else {
                    pos
                }
            },
        }
    }

    /// Resolves `motion` to a range from the cursor and applies `action` to
    /// it: move (optionally selecting), copy, cut, or delete.
    pub fn handle_motion(&mut self, motion: MotionKind, action: MotionAction)
        requires
            old(self).wf(),
        ensures
            final(self).wf(),
            final(self).model() == handle_motion_model(old(self).model(), motion, action),
    {
        let start_idx = self.line_buffer.insertion_point();
        let end_idx = self.motion_destination(motion);
        let (range_start, range_end) = if end_idx > start_idx {
            (start_idx, end_idx)
        } else {
            (end_idx, start_idx)
        };
        match action {
            MotionAction::MoveCursor { select } => {
                if select {
                    if self.selection_anchor.is_none() {
                        self.selection_anchor = Some(start_idx);
                    }
                } else {
                    self.selection_anchor = None;
                }
                self.line_buffer.set_insertion_point(end_idx);
            },
            MotionAction::Copy => {
                let content = self.line_buffer.substring(range_start, range_end);
                self.cut_buffer.set(content, ClipboardMode::Normal);
            },
            MotionAction::Cut => {
                let content = self.line_buffer.substring(range_start, range_end);
                self.cut_buffer.set(content, ClipboardMode::Normal);
                self.line_buffer.clear_range(range_start, range_end);
                self.line_buffer.set_insertion_point(range_start);
            },
            MotionAction::Delete => {
                self.line_buffer.clear_range(range_start, range_end);
                self.line_buffer.set_insertion_point(range_start);
            },
        }
        proof {
            assert(final(self).model() =~= handle_motion_model(old(self).model(), motion, action));
        }
    }

    /// Moves the cursor to `new_offset` through the motion machinery,
    /// selecting along the way when `select` is set.
    pub fn move_cursor_to(&mut self, new_offset: usize, select: bool)
        requires
            old(self).wf(),
        ensures
            final(self).wf(),
            final(self).model() == handle_motion_model(
                old(self).model(),
                MotionKind::MoveToPosition(new_offset),
                MotionAction::MoveCursor { select },
            ),
    {
        self.handle_motion(
            MotionKind::MoveToPosition(new_offset),
            MotionAction::MoveCursor { select },
        );
    }

    /// Keeps or anchors the selection for a selecting motion; drops it for
    /// a plain one.
    pub fn update_selection_anchor(&mut self, select: bool)
        ensures
            final(self).model() == (EditorModel {
                anchor: if select {
                    if old(self).model().anchor is Some {
                        old(self).model().anchor
                    } else {
                        Some(old(self).cursor())
                    }
                } else {
                    None
                },
                ..old(self).model()
            }),
            final(self).wf() == old(self).wf(),
    {
        if select {
            if self.selection_anchor.is_none() {
                self.selection_anchor = Some(self.line_buffer.insertion_point());
            }
        } else {
            self.selection_anchor = None;
        }
    }

    /// Moves the cursor to `position` (clamped to a grapheme boundary),
    /// anchoring or dropping the selection as `select` says.
    pub fn move_to_position(&mut self, position: usize, select: bool)
        requires
            old(self).wf(),
        ensures
            final(self).wf(),
            final(self).model() == (EditorModel {
                buf: BufferModel {
                    text: old(self).text(),
                    cursor: clamp_boundary(old(self).text(), position as int),
                },
                anchor: if select {
                    if old(self).model().anchor is Some {
                        old(self).model().anchor
                    } else {
                        Some(old(self).cursor())
                    }
                } else {
                    None
                },
                ..old(self).model()
            }),
    {
        self.update_selection_anchor(select);
        self.line_buffer.set_insertion_point(position);
        proof {
            assert(final(self).model() =~= (EditorModel {
                buf: BufferModel {
                    text: old(self).text(),
                    cursor: clamp_boundary(old(self).text(), position as int),
                },
                anchor: if select {
                    if old(self).model().anchor is Some {
                        old(self).model().anchor
                    } else {
                        Some(old(self).cursor())
                    }
                } else {
                    None
                },
                ..old(self).model()
            }));
        }
    }

    /// Commits the live buffer to the undo stack under the tag
    /// `undo_behavior`: merging edits replace the top snapshot, others push
    /// a new undo point, and undo/redo only record themselves.
    pub fn update_undo_state(&mut self, undo_behavior: UndoBehavior)
        requires
            old(self).wf(),
        ensures
            final(self).wf(),
            final(self).model() == ({
                let (st, lu) = undo_update(
                    old(self).model().stack,
                    old(self).model().last_undo,
                    old(self).model().buf,
                    undo_behavior,
                );
                EditorModel { stack: st, last_undo: lu, ..old(self).model() }
            }),
    {
        if matches!(undo_behavior, UndoBehavior::UndoRedo) {
            self.last_undo_behavior = UndoBehavior::UndoRedo;
            proof {
                assert(final(self).model() =~= ({
                    let (st, lu) = undo_update(
                        old(self).model().stack,
                        old(self).model().last_undo,
                        old(self).model().buf,
                        undo_behavior,
                    );
                    EditorModel { stack: st, last_undo: lu, ..old(self).model() }
                }));
            }
            return ;
        }
        if !undo_behavior.create_undo_point_after(&self.last_undo_behavior) {
            self.edit_stack.undo();
        }
        self.edit_stack.insert(self.line_buffer.clone());
        self.last_undo_behavior = undo_behavior;
        proof {
            assert(final(self).model() =~= ({
                let (st, lu) = undo_update(
                    old(self).model().stack,
                    old(self).model().last_undo,
                    old(self).model().buf,
                    undo_behavior,
                );
                EditorModel { stack: st, last_undo: lu, ..old(self).model() }
            }));
        }
    }

    /// Steps one entry back in the undo history and restores the snapshot
    /// found there; a no-op at the oldest state.
    pub fn undo(&mut self)
        requires
            old(self).wf(),
        ensures
            final(self).wf(),
            final(self).model() == undo_model(old(self).model()),
    {
        let val = self.edit_stack.undo();
        let nb = val.clone();
        self.line_buffer = nb;
        proof {
            assert(final(self).model() =~= undo_model(old(self).model()));
        }
    }

    /// Steps one entry forward in the undo history and restores the
    /// snapshot found there; a no-op at the newest state.
    pub fn redo(&mut self)
        requires
            old(self).wf(),
        ensures
            final(self).wf(),
            final(self).model() == redo_model(old(self).model()),
    {
        let val = self.edit_stack.redo();
        let nb = val.clone();
        self.line_buffer = nb;
        proof {
            assert(final(self).model() =~= redo_model(old(self).model()));
        }
    }

    /// Drops all undo history.
    pub fn reset_undo_stack(&mut self)
        requires
            old(self).wf(),
        ensures
            final(self).wf(),
            final(self).model() == (EditorModel {
                stack: final(self).model().stack,
                ..old(self).model()
            }),
            final(self).model().stack.entries.len() == 1,
            final(self).model().stack.entries[0].text.len() == 0,
            final(self).model().stack.entries[0].cursor == 0,
            final(self).model().stack.index == 0,
    {
        self.edit_stack.reset();
    }

    /// If a selection is active, its range, ascending: the anchor and the
    /// cursor, with the grapheme under the larger endpoint included.
    pub fn get_selection(&self) -> (r: Option<(usize, usize)>)
        requires
            self.wf(),
        ensures
            (match r {
                Some(p) => selection_of(self.model()) == Some((p.0 as int, p.1 as int)),
                None => selection_of(self.model()) is None,
            }),
            r matches Some(p) ==> p.0 <= p.1 <= self.text().len(),
    {
        match self.selection_anchor {
            None => None,
            Some(anchor) => {
                let buffer_len = self.line_buffer.len();
                let ip = self.line_buffer.insertion_point();
                if ip > anchor {
                    let g = self.line_buffer.grapheme_right_index();
                    let e = if g > buffer_len {
                        buffer_len
                    } else {
                        g
                    };
                    Some((anchor, e))
                } else {
                    let g = self.line_buffer.grapheme_right_index_from_pos(anchor);
                    let e = if g > buffer_len {
                        buffer_len
                    } else {
                        g
                    };
                    Some((ip, e))
                }
            },
        }
    }

    /// Removes the selected range and drops the anchor; a no-op without an
    /// active selection.
    pub fn delete_selection(&mut self)
        requires
            old(self).wf(),
        ensures
            final(self).wf(),
            final(self).model() == delete_selection_model(old(self).model()),
    {
        match self.get_selection() {
            Some((start, end)) => {
                self.line_buffer.clear_range(start, end);
                self.selection_anchor = None;
                proof {
                    assert(final(self).model() =~= delete_selection_model(old(self).model()));
                }
            },
            None => {},
        }
    }

    /// Cuts the selected range into the local clipboard slot.
    pub fn cut_selection_to_cut_buffer(&mut self)
        requires
            old(self).wf(),
        ensures
            final(self).wf(),
            final(self).model() == cut_selection_model(old(self).model(), false),
    {
        match self.get_selection() {
            Some((start, end)) => {
                let content = self.line_buffer.substring(start, end);
                self.cut_buffer.set(content, ClipboardMode::Normal);
                self.line_buffer.clear_range(start, end);
                self.selection_anchor = None;
                proof {
                    assert(final(self).model() =~= cut_selection_model(old(self).model(), false));
                }
            },
            None => {},
        }
    }

    /// Cuts the selected range into the system clipboard slot.
    pub fn cut_selection_to_system(&mut self)
        requires
            old(self).wf(),
        ensures
            final(self).wf(),
            final(self).model() == cut_selection_model(old(self).model(), true),
    {
        match self.get_selection() {
            Some((start, end)) => {
                let content = self.line_buffer.substring(start, end);
                self.system_clipboard.set(content, ClipboardMode::Normal);
                self.line_buffer.clear_range(start, end);
                self.selection_anchor = None;
                proof {
                    assert(final(self).model() =~= cut_selection_model(old(self).model(), true));
                }
            },
            None => {},
        }
    }

    /// Copies the selected range into the local clipboard slot.
    pub fn copy_selection_to_cut_buffer(&mut self)
        requires
            old(self).wf(),
        ensures
            final(self).wf(),
            final(self).model() == copy_selection_model(old(self).model(), false),
    {
        match self.get_selection() {
            Some((start, end)) => {
                let content = self.line_buffer.substring(start, end);
                self.cut_buffer.set(content, ClipboardMode::Normal);
                proof {
                    assert(final(self).model() =~= copy_selection_model(old(self).model(), false));
                }
            },
            None => {},
        }
    }

    /// Copies the selected range into the system clipboard slot.
    pub fn copy_selection_to_system(&mut self)
        requires
            old(self).wf(),
        ensures
            final(self).wf(),
            final(self).model() == copy_selection_model(old(self).model(), true),
    {
        match self.get_selection() {
            Some((start, end)) => {
                let content = self.line_buffer.substring(start, end);
                self.system_clipboard.set(content, ClipboardMode::Normal);
                proof {
                    assert(final(self).model() =~= copy_selection_model(old(self).model(), true));
                }
            },
            None => {},
        }
    }

    /// Removes the selection if one is active, otherwise the grapheme left
    /// of the cursor.
    pub fn backspace(&mut self)
        requires
            old(self).wf(),
        ensures
            final(self).wf(),
            final(self).model() == backspace_model(old(self).model()),
    {
        if self.selection_anchor.is_some() {
            self.delete_selection();
        } else {
            self.line_buffer.delete_left_grapheme();
            proof {
                assert(final(self).model() =~= backspace_model(old(self).model()));
            }
        }
    }

    /// Removes the selection if one is active, otherwise the grapheme right
    /// of the cursor.
    pub fn delete(&mut self)
        requires
            old(self).wf(),
        ensures
            final(self).wf(),
            final(self).model() == delete_model(old(self).model()),
    {
        if self.selection_anchor.is_some() {
            self.delete_selection();
        } else {
            self.line_buffer.delete_right_grapheme();
            proof {
                assert(final(self).model() =~= delete_model(old(self).model()));
            }
        }
    }

    /// Inserts a character at the cursor, replacing the selection if one is
    /// active.
    pub fn insert_char(&mut self, c: char)
        requires
            old(self).wf(),
        ensures
            final(self).wf(),
            final(self).model() == insert_model(old(self).model(), seq![c]),
    {
        self.delete_selection();
        self.line_buffer.insert_char(c);
        proof {
            assert(final(self).model() =~= insert_model(old(self).model(), seq![c]));
        }
    }

    /// Inserts a string at the cursor, replacing the selection if one is
    /// active.
    pub fn insert_str(&mut self, string: &str)
        requires
            old(self).wf(),
        ensures
            final(self).wf(),
            final(self).model() == insert_model(old(self).model(), string@),
    {
        self.delete_selection();
        self.line_buffer.insert_str(string);
        proof {
            assert(final(self).model() =~= insert_model(old(self).model(), string@));
        }
    }

    /// Inserts a line break at the cursor, replacing the selection if one
    /// is active.
    pub fn insert_newline(&mut self)
        requires
            old(self).wf(),
        ensures
            final(self).wf(),
            final(self).model() == insert_model(old(self).model(), seq!['\n']),
    {
        self.delete_selection();
        self.line_buffer.insert_newline();
        proof {
            assert(final(self).model() =~= insert_model(old(self).model(), seq!['\n']));
        }
    }

    /// Replaces the grapheme under the cursor by `character`.
    pub fn replace_char(&mut self, character: char)
        requires
            old(self).wf(),
        ensures
            final(self).wf(),
            final(self).model() == replace_char_model(old(self).model(), character),
    {
        self.line_buffer.delete_right_grapheme();
        self.line_buffer.insert_char(character);
        proof {
            assert(final(self).model() =~= replace_char_model(old(self).model(), character));
        }
    }

    /// Replaces `n_chars` graphemes under the cursor by `string`.
    pub fn replace_chars(&mut self, n_chars: usize, string: &str)
        requires
            old(self).wf(),
        ensures
            final(self).wf(),
            final(self).model() == replace_chars_model(old(self).model(), n_chars as nat, string@),
    {
        let mut i: usize = 0;
        while i < n_chars
            invariant
                i <= n_chars,
                self.wf(),
                self.model() == (EditorModel {
                    buf: self.model().buf,
                    ..old(self).model()
                }),
                buf_delete_right_n(self.model().buf, (n_chars - i) as nat) == buf_delete_right_n(
                    old(self).model().buf,
                    n_chars as nat,
                ),
            decreases n_chars - i,
        {
            self.line_buffer.delete_right_grapheme();
            proof {
                assert(self.model() =~= (EditorModel { buf: self.model().buf, ..old(self).model() }));
            }
            i = i + 1;
        }
        self.line_buffer.insert_str(string);
        proof {
            assert(final(self).model() =~= replace_chars_model(
                old(self).model(),
                n_chars as nat,
                string@,
            ));
        }
    }

    /// Pastes the local clipboard slot, replacing the selection if one is
    /// active.
    pub fn paste_cut_buffer(&mut self)
        requires
            old(self).wf(),
        ensures
            final(self).wf(),
            final(self).model() == paste_model(old(self).model(), false),
    {
        self.delete_selection();
        insert_clipboard_content_before(&mut self.line_buffer, &self.cut_buffer);
        proof {
            assert(final(self).model() =~= paste_model(old(self).model(), false));
        }
    }

    /// Pastes the system clipboard slot, replacing the selection if one is
    /// active.
    pub fn paste_from_system(&mut self)
        requires
            old(self).wf(),
        ensures
            final(self).wf(),
            final(self).model() == paste_model(old(self).model(), true),
    {
        self.delete_selection();
        insert_clipboard_content_before(&mut self.line_buffer, &self.system_clipboard);
        proof {
            assert(final(self).model() =~= paste_model(old(self).model(), true));
        }
    }

    /// Cuts the text strictly between the innermost delimiters `left_char`
    /// and `right_char` enclosing the cursor into the local clipboard slot,
    /// leaving the delimiters themselves; the cursor lands just after the
    /// opening delimiter.  Without an enclosing pair nothing changes.
    pub fn cut_inside(&mut self, left_char: char, right_char: char)
        requires
            old(self).wf(),
        ensures
            final(self).wf(),
            final(self).model() == cut_inside_model(old(self).model(), left_char, right_char),
    {
        let ip = self.line_buffer.insertion_point();
        match self.line_buffer.find_matching_pair(left_char, right_char, ip) {
            Some((lp, rp)) => {
                let inside_start = lp + 1;
                if inside_start < rp {
                    let content = self.line_buffer.substring(inside_start, rp);
                    self.cut_buffer.set(content, ClipboardMode::Normal);
                    self.line_buffer.clear_range(inside_start, rp);
                }
                self.line_buffer.set_insertion_point(inside_start);
                proof {
                    assert(final(self).model() =~= cut_inside_model(
                        old(self).model(),
                        left_char,
                        right_char,
                    ));
                }
            },
            None => {},
        }
    }

    /// Copies the text strictly between the innermost delimiters enclosing
    /// the cursor into the local clipboard slot.  The buffer and the cursor
    /// are never touched, whether or not a pair is found.
    pub fn yank_inside(&mut self, left_char: char, right_char: char)
        requires
            old(self).wf(),
        ensures
            final(self).wf(),
            final(self).model() == yank_inside_model(old(self).model(), left_char, right_char),
            final(self).text() == old(self).text(),
            final(self).cursor() == old(self).cursor(),
    {
        let ip = self.line_buffer.insertion_point();
        match self.line_buffer.find_matching_pair(left_char, right_char, ip) {
            Some((lp, rp)) => {
                let inside_start = lp + 1;
                if inside_start < rp {
                    let content = self.line_buffer.substring(inside_start, rp);
                    self.cut_buffer.set(content, ClipboardMode::Normal);
                    proof {
                        assert(final(self).model() =~= yank_inside_model(
                            old(self).model(),
                            left_char,
                            right_char,
                        ));
                    }
                }
            },
            None => {},
        }
    }

    /// Replaces the live buffer, recording the change on the undo stack
    /// under `undo_behavior`.
    pub fn set_line_buffer(&mut self, line_buffer: LineBuffer, undo_behavior: UndoBehavior)
        requires
            old(self).wf(),
            line_buffer.wf(),
        ensures
            final(self).wf(),
            final(self).model() == ({
                let (st, lu) = undo_update(
                    old(self).model().stack,
                    old(self).model().last_undo,
                    line_buffer.model(),
                    undo_behavior,
                );
                EditorModel { buf: line_buffer.model(), stack: st, last_undo: lu, ..old(
                    self,
                ).model() }
            }),
    {
        self.line_buffer = line_buffer;
        self.update_undo_state(undo_behavior);
        proof {
            assert(final(self).model() =~= ({
                let (st, lu) = undo_update(
                    old(self).model().stack,
                    old(self).model().last_undo,
                    line_buffer.model(),
                    undo_behavior,
                );
                EditorModel { buf: line_buffer.model(), stack: st, last_undo: lu, ..old(
                    self,
                ).model() }
            }));
        }
    }

    /// Replaces the buffer text (cursor at its end), recording the change
    /// on the undo stack under `undo_behavior`.
    pub fn set_buffer(&mut self, buffer: String, undo_behavior: UndoBehavior)
        requires
            old(self).wf(),
        ensures
            final(self).wf(),
            final(self).model() == ({
                let b = BufferModel { text: buffer@, cursor: buffer@.len() as int };
                let (st, lu) = undo_update(
                    old(self).model().stack,
                    old(self).model().last_undo,
                    b,
                    undo_behavior,
                );
                EditorModel { buf: b, stack: st, last_undo: lu, ..old(self).model() }
            }),
    {
        self.line_buffer.set_buffer(buffer);
        self.update_undo_state(undo_behavior);
        proof {
            assert(final(self).model() =~= ({
                let b = BufferModel { text: buffer@, cursor: buffer@.len() as int };
                let (st, lu) = undo_update(
                    old(self).model().stack,
                    old(self).model().last_undo,
                    b,
                    undo_behavior,
                );
                EditorModel { buf: b, stack: st, last_undo: lu, ..old(self).model() }
            }));
        }
    }

    /// Opens the buffer for direct editing in an undo-safe manner: the
    /// state before the edit is committed under `undo_behavior` first, and
    /// the caller then mutates the returned buffer through its methods.
    pub fn edit_buffer(&mut self, undo_behavior: UndoBehavior) -> (r: &mut LineBuffer)
        requires
            old(self).wf(),
        ensures
            old(self).model().buf == (*r).model(),
            final(self).model() == ({
                let (st, lu) = undo_update(
                    old(self).model().stack,
                    old(self).model().last_undo,
                    old(self).model().buf,
                    undo_behavior,
                );
                EditorModel { buf: final(r).model(), stack: st, last_undo: lu, ..old(
                    self,
                ).model() }
            }),
            final(r).wf() ==> final(self).wf(),
    {
        self.update_undo_state(undo_behavior);
        proof {
            assert((EditorModel { buf: final(self).model().buf, ..final(self).model() })
                =~= final(self).model());
        }
        &mut self.line_buffer
    }

    pub fn move_to_start(&mut self, select: bool)
        requires
            old(self).wf(),
        ensures
            final(self).wf(),
            final(self).model() == handle_motion_model(
                old(self).model(),
                MotionKind::MoveToStart,
                MotionAction::MoveCursor { select },
            ),
    {
        self.handle_motion(MotionKind::MoveToStart, MotionAction::MoveCursor { select });
    }

    pub fn move_to_end(&mut self, select: bool)
        requires
            old(self).wf(),
        ensures
            final(self).wf(),
            final(self).model() == handle_motion_model(
                old(self).model(),
                MotionKind::MoveToEnd,
                MotionAction::MoveCursor { select },
            ),
    {
        self.handle_motion(MotionKind::MoveToEnd, MotionAction::MoveCursor { select });
    }

    pub fn move_to_line_start(&mut self, select: bool)
        requires
            old(self).wf(),
        ensures
            final(self).wf(),
            final(self).model() == handle_motion_model(
                old(self).model(),
                MotionKind::MoveToLineStart,
                MotionAction::MoveCursor { select },
            ),
    {
        self.handle_motion(MotionKind::MoveToLineStart, MotionAction::MoveCursor { select });
    }

    pub fn move_to_line_end(&mut self, select: bool)
        requires
            old(self).wf(),
        ensures
            final(self).wf(),
            final(self).model() == handle_motion_model(
                old(self).model(),
                MotionKind::MoveToLineEnd,
                MotionAction::MoveCursor { select },
            ),
    {
        self.handle_motion(MotionKind::MoveToLineEnd, MotionAction::MoveCursor { select });
    }

    pub fn move_left(&mut self, select: bool)
        requires
            old(self).wf(),
        ensures
            final(self).wf(),
            final(self).model() == handle_motion_model(
                old(self).model(),
                MotionKind::MoveLeft,
                MotionAction::MoveCursor { select },
            ),
    {
        self.handle_motion(MotionKind::MoveLeft, MotionAction::MoveCursor { select });
    }

    pub fn move_right(&mut self, select: bool)
        requires
            old(self).wf(),
        ensures
            final(self).wf(),
            final(self).model() == handle_motion_model(
                old(self).model(),
                MotionKind::MoveRight,
                MotionAction::MoveCursor { select },
            ),
    {
        self.handle_motion(MotionKind::MoveRight, MotionAction::MoveCursor { select });
    }

    pub fn move_word_left(&mut self, select: bool)
        requires
            old(self).wf(),
        ensures
            final(self).wf(),
            final(self).model() == handle_motion_model(
                old(self).model(),
                MotionKind::MoveWordLeft,
                MotionAction::MoveCursor { select },
            ),
    {
        self.handle_motion(MotionKind::MoveWordLeft, MotionAction::MoveCursor { select });
    }

    pub fn move_big_word_left(&mut self, select: bool)
        requires
            old(self).wf(),
        ensures
            final(self).wf(),
            final(self).model() == handle_motion_model(
                old(self).model(),
                MotionKind::MoveBigWordLeft,
                MotionAction::MoveCursor { select },
            ),
    {
        self.handle_motion(MotionKind::MoveBigWordLeft, MotionAction::MoveCursor { select });
    }

    pub fn move_word_right(&mut self, select: bool)
        requires
            old(self).wf(),
        ensures
            final(self).wf(),
            final(self).model() == handle_motion_model(
                old(self).model(),
                MotionKind::MoveWordRight,
                MotionAction::MoveCursor { select },
            ),
    {
        self.handle_motion(MotionKind::MoveWordRight, MotionAction::MoveCursor { select });
    }

    pub fn move_word_right_start(&mut self, select: bool)
        requires
            old(self).wf(),
        ensures
            final(self).wf(),
            final(self).model() == handle_motion_model(
                old(self).model(),
                MotionKind::MoveWordRight,
                MotionAction::MoveCursor { select },
            ),
    {
        self.handle_motion(MotionKind::MoveWordRight, MotionAction::MoveCursor { select });
    }

    pub fn move_big_word_right_start(&mut self, select: bool)
        requires
            old(self).wf(),
        ensures
            final(self).wf(),
            final(self).model() == handle_motion_model(
                old(self).model(),
                MotionKind::MoveBigWordRight,
                MotionAction::MoveCursor { select },
            ),
    {
        self.handle_motion(MotionKind::MoveBigWordRight, MotionAction::MoveCursor { select });
    }

    pub fn move_word_right_end(&mut self, select: bool)
        requires
            old(self).wf(),
        ensures
            final(self).wf(),
            final(self).model() == handle_motion_model(
                old(self).model(),
                MotionKind::MoveWordRightEnd,
                MotionAction::MoveCursor { select },
            ),
    {
        self.handle_motion(MotionKind::MoveWordRightEnd, MotionAction::MoveCursor { select });
    }

    pub fn move_big_word_right_end(&mut self, select: bool)
        requires
            old(self).wf(),
        ensures
            final(self).wf(),
            final(self).model() == handle_motion_model(
                old(self).model(),
                MotionKind::MoveBigWordRightEnd,
                MotionAction::MoveCursor { select },
            ),
    {
        self.handle_motion(MotionKind::MoveBigWordRightEnd, MotionAction::MoveCursor { select });
    }

    pub fn move_line_up(&mut self)
        requires
            old(self).wf(),
        ensures
            final(self).wf(),
            final(self).model() == handle_motion_model(
                old(self).model(),
                MotionKind::MoveLineUp,
                MotionAction::MoveCursor { select: false },
            ),
    {
        self.handle_motion(MotionKind::MoveLineUp, MotionAction::MoveCursor { select: false });
    }

    pub fn move_line_down(&mut self)
        requires
            old(self).wf(),
        ensures
            final(self).wf(),
            final(self).model() == handle_motion_model(
                old(self).model(),
                MotionKind::MoveLineDown,
                MotionAction::MoveCursor { select: false },
            ),
    {
        self.handle_motion(MotionKind::MoveLineDown, MotionAction::MoveCursor { select: false });
    }

    /// Moves right to the first occurrence of `c` (stopping before it when
    /// `before_char` is set).  Scanning is always buffer-wide here;
    /// `current_line` is accepted for interface compatibility.
    #[allow(unused_variables)]
    pub fn move_right_until_char(
        &mut self,
        c: char,
        before_char: bool,
        current_line: bool,
        select: bool,
    )
        requires
            old(self).wf(),
        ensures
            final(self).wf(),
            final(self).model() == handle_motion_model(
                old(self).model(),
                MotionKind::MoveUntilChar { c, inclusive: !before_char, forward: true },
                MotionAction::MoveCursor { select },
            ),
    {
        self.handle_motion(
            MotionKind::MoveUntilChar { c, inclusive: !before_char, forward: true },
            MotionAction::MoveCursor { select },
        );
    }

    /// Moves left to the closest previous occurrence of `c`.
    #[allow(unused_variables)]
    pub fn move_left_until_char(
        &mut self,
        c: char,
        before_char: bool,
        current_line: bool,
        select: bool,
    )
        requires
            old(self).wf(),
        ensures
            final(self).wf(),
            final(self).model() == handle_motion_model(
                old(self).model(),
                MotionKind::MoveUntilChar { c, inclusive: !before_char, forward: false },
                MotionAction::MoveCursor { select },
            ),
    {
        self.handle_motion(
            MotionKind::MoveUntilChar { c, inclusive: !before_char, forward: false },
            MotionAction::MoveCursor { select },
        );
    }

    pub fn cut_current_line(&mut self)
        requires
            old(self).wf(),
        ensures
            final(self).wf(),
            final(self).model() == handle_motion_model(
                old(self).model(),
                MotionKind::MoveToLineEnd,
                MotionAction::Cut,
            ),
    {
        self.handle_motion(MotionKind::MoveToLineEnd, MotionAction::Cut);
    }

    pub fn cut_from_start(&mut self)
        requires
            old(self).wf(),
        ensures
            final(self).wf(),
            final(self).model() == handle_motion_model(
                old(self).model(),
                MotionKind::MoveToStart,
                MotionAction::Cut,
            ),
    {
        self.handle_motion(MotionKind::MoveToStart, MotionAction::Cut);
    }

    pub fn cut_from_line_start(&mut self)
        requires
            old(self).wf(),
        ensures
            final(self).wf(),
            final(self).model() == handle_motion_model(
                old(self).model(),
                MotionKind::MoveToLineStart,
                MotionAction::Cut,
            ),
    {
        self.handle_motion(MotionKind::MoveToLineStart, MotionAction::Cut);
    }

    pub fn cut_from_end(&mut self)
        requires
            old(self).wf(),
        ensures
            final(self).wf(),
            final(self).model() == handle_motion_model(
                old(self).model(),
                MotionKind::MoveToEnd,
                MotionAction::Cut,
            ),
    {
        self.handle_motion(MotionKind::MoveToEnd, MotionAction::Cut);
    }

    pub fn cut_to_line_end(&mut self)
        requires
            old(self).wf(),
        ensures
            final(self).wf(),
            final(self).model() == handle_motion_model(
                old(self).model(),
                MotionKind::MoveToLineEnd,
                MotionAction::Cut,
            ),
    {
        self.handle_motion(MotionKind::MoveToLineEnd, MotionAction::Cut);
    }

    pub fn copy_from_start(&mut self)
        requires
            old(self).wf(),
        ensures
            final(self).wf(),
            final(self).model() == handle_motion_model(
                old(self).model(),
                MotionKind::MoveToStart,
                MotionAction::Copy,
            ),
    {
        self.handle_motion(MotionKind::MoveToStart, MotionAction::Copy);
    }

    pub fn copy_from_line_start(&mut self)
        requires
            old(self).wf(),
        ensures
            final(self).wf(),
            final(self).model() == handle_motion_model(
                old(self).model(),
                MotionKind::MoveToLineStart,
                MotionAction::Copy,
            ),
    {
        self.handle_motion(MotionKind::MoveToLineStart, MotionAction::Copy);
    }

    pub fn copy_from_end(&mut self)
        requires
            old(self).wf(),
        ensures
            final(self).wf(),
            final(self).model() == handle_motion_model(
                old(self).model(),
                MotionKind::MoveToEnd,
                MotionAction::Copy,
            ),
    {
        self.handle_motion(MotionKind::MoveToEnd, MotionAction::Copy);
    }

    pub fn copy_to_line_end(&mut self)
        requires
            old(self).wf(),
        ensures
            final(self).wf(),
            final(self).model() == handle_motion_model(
                old(self).model(),
                MotionKind::MoveToLineEnd,
                MotionAction::Copy,
            ),
    {
        self.handle_motion(MotionKind::MoveToLineEnd, MotionAction::Copy);
    }

    /// Cuts the characters between two caller-given positions (in either
    /// order, clamped to the buffer) into the local clipboard slot.
    pub fn cut_range(&mut self, start: usize, end: usize)
        requires
            old(self).wf(),
        ensures
            final(self).wf(),
            final(self).model() == range_cut_model(
                old(self).model(),
                start as int,
                end as int,
                false,
            ),
    {
        let n = self.line_buffer.len();
        let (a0, b0) = if start <= end {
            (start, end)
        } else {
            (end, start)
        };
        let a = if a0 > n {
            n
        } else {
            a0
        };
        let b = if b0 > n {
            n
        } else {
            b0
        };
        let content = self.line_buffer.substring(a, b);
        self.cut_buffer.set(content, ClipboardMode::Normal);
        self.line_buffer.clear_range(a, b);
        self.line_buffer.set_insertion_point(a);
        proof {
            assert(final(self).model() =~= range_cut_model(
                old(self).model(),
                start as int,
                end as int,
                false,
            ));
        }
    }

    /// Copies the characters between two caller-given positions into the
    /// local clipboard slot, leaving the buffer untouched.
    pub fn copy_range(&mut self, start: usize, end: usize)
        requires
            old(self).wf(),
        ensures
            final(self).wf(),
            final(self).model() == range_cut_model(
                old(self).model(),
                start as int,
                end as int,
                true,
            ),
    {
        let n = self.line_buffer.len();
        let (a0, b0) = if start <= end {
            (start, end)
        } else {
            (end, start)
        };
        let a = if a0 > n {
            n
        } else {
            a0
        };
        let b = if b0 > n {
            n
        } else {
            b0
        };
        let content = self.line_buffer.substring(a, b);
        self.cut_buffer.set(content, ClipboardMode::Normal);
        proof {
            assert(final(self).model() =~= range_cut_model(
                old(self).model(),
                start as int,
                end as int,
                true,
            ));
        }
    }

    /// Deletes the characters between two caller-given positions without
    /// touching any clipboard.
    pub fn delete_range(&mut self, start: usize, end: usize)
        requires
            old(self).wf(),
        ensures
            final(self).wf(),
            final(self).model() == range_delete_model(old(self).model(), start as int, end as int),
    {
        let n = self.line_buffer.len();
        let (a0, b0) = if start <= end {
            (start, end)
        } else {
            (end, start)
        };
        let a = if a0 > n {
            n
        } else {
            a0
        };
        let b = if b0 > n {
            n
        } else {
            b0
        };
        self.line_buffer.clear_range(a, b);
        self.line_buffer.set_insertion_point(a);
        proof {
            assert(final(self).model() =~= range_delete_model(
                old(self).model(),
                start as int,
                end as int,
            ));
        }
    }

    /// Selects the whole buffer: the anchor lands on position zero and the
    /// cursor on the buffer end.
    pub fn select_all(&mut self)
        requires
            old(self).wf(),
        ensures
            final(self).wf(),
            final(self).model() == handle_motion_model(
                handle_motion_model(
                    old(self).model(),
                    MotionKind::MoveToStart,
                    MotionAction::MoveCursor { select: false },
                ),
                MotionKind::MoveToEnd,
                MotionAction::MoveCursor { select: true },
            ),
    {
        self.handle_motion(MotionKind::MoveToStart, MotionAction::MoveCursor { select: false });
        self.handle_motion(MotionKind::MoveToEnd, MotionAction::MoveCursor { select: true });
    }

    /// Executes one editing command: runs it, drops the selection anchor
    /// unless the command was a selecting cursor motion, and commits the
    /// result to the undo stack under the command's tag.
    pub fn run_edit_command(&mut self, command: &EditCommand)
        requires
            old(self).wf(),
        ensures
            final(self).wf(),
            final(self).model() == run_model(old(self).model(), command),
    {
        match command {
            EditCommand::InsertChar(c) => self.insert_char(*c),
            EditCommand::InsertString(s) => self.insert_str(s.as_str()),
            EditCommand::InsertNewline => self.insert_newline(),
            EditCommand::ReplaceChar(chr) => self.replace_char(*chr),
            EditCommand::ReplaceChars(n, s) => self.replace_chars(*n, s.as_str()),
            EditCommand::Motion { motion, action } => self.handle_motion(*motion, *action),
            EditCommand::Backspace => self.backspace(),
            EditCommand::Delete => self.delete(),
            EditCommand::OperateInsidePair { left_char, right_char, action } => match action {
                PairAction::CutInside => self.cut_inside(*left_char, *right_char),
                PairAction::YankInside => self.yank_inside(*left_char, *right_char),
            },
            EditCommand::Undo => self.undo(),
            EditCommand::Redo => self.redo(),
            EditCommand::SwapGraphemes => {
                self.line_buffer.swap_graphemes();
                proof {
                    assert(self.model() =~= command_apply(old(self).model(), command));
                }
            },
            EditCommand::SwapWords => {
                self.line_buffer.swap_words();
                proof {
                    assert(self.model() =~= command_apply(old(self).model(), command));
                }
            },
            EditCommand::UppercaseWord => {
                self.line_buffer.uppercase_word();
                proof {
                    assert(self.model() =~= command_apply(old(self).model(), command));
                }
            },
            EditCommand::LowercaseWord => {
                self.line_buffer.lowercase_word();
                proof {
                    assert(self.model() =~= command_apply(old(self).model(), command));
                }
            },
            EditCommand::SwitchcaseChar => {
                self.line_buffer.switchcase_char();
                proof {
                    assert(self.model() =~= command_apply(old(self).model(), command));
                }
            },
            EditCommand::CapitalizeChar => {
                self.line_buffer.capitalize_char();
                proof {
                    assert(self.model() =~= command_apply(old(self).model(), command));
                }
            },
            EditCommand::SelectAll => self.select_all(),
            EditCommand::Clear => {
                self.line_buffer.set_buffer(String::new());
                proof {
                    assert(self.model() =~= command_apply(old(self).model(), command));
                }
            },
            EditCommand::ClearToLineEnd => {
                let e = self.line_buffer.find_current_line_end();
                let ip = self.line_buffer.insertion_point();
                self.line_buffer.clear_range(ip, e);
                proof {
                    assert(self.model() =~= command_apply(old(self).model(), command));
                }
            },
            EditCommand::CutSelection => self.cut_selection_to_cut_buffer(),
            EditCommand::CopySelection => self.copy_selection_to_cut_buffer(),
            EditCommand::PasteCutBuffer => self.paste_cut_buffer(),
            EditCommand::CutSelectionSystem => self.cut_selection_to_system(),
            EditCommand::CopySelectionSystem => self.copy_selection_to_system(),
            EditCommand::PasteSystem => self.paste_from_system(),
        }
        proof {
            assert(self.model() =~= command_apply(old(self).model(), command));
        }
        if !matches!(command.edit_type(), EditType::MoveCursor { select: true }) {
            self.selection_anchor = None;
        }
        let new_undo_behavior = match command {
            EditCommand::InsertChar(c) => UndoBehavior::InsertCharacter(*c),
            EditCommand::Delete => {
                let snap = self.edit_stack.current();
                let g = snap.grapheme_right();
                let ch = if g.unicode_len() > 0 {
                    Some(g.get_char(0))
                } else {
                    None
                };
                UndoBehavior::Delete(ch)
            },
            EditCommand::Backspace => {
                let snap = self.edit_stack.current();
                let g = snap.grapheme_left();
                let ch = if g.unicode_len() > 0 {
                    Some(g.get_char(0))
                } else {
                    None
                };
                UndoBehavior::Backspace(ch)
            },
            EditCommand::Undo | EditCommand::Redo => UndoBehavior::UndoRedo,
            _ => {
                if matches!(command.edit_type(), EditType::MoveCursor { .. }) {
                    UndoBehavior::MoveCursor
                } else {
                    UndoBehavior::CreateUndoPoint
                }
            },
        };
        proof {
            assert(new_undo_behavior == command_behavior(old(self).model(), command));
        }
        self.update_undo_state(new_undo_behavior);
        proof {
            assert(final(self).model() =~= run_model(old(self).model(), command));
        }
    }

    /// Drops the selection anchor.
    pub fn reset_selection(&mut self)
        ensures
            final(self).model() == (EditorModel { anchor: None, ..old(self).model() }),
            final(self).wf() == old(self).wf(),
    {
        self.selection_anchor = None;
    }
}

/// Inserts a clipboard slot's content before the cursor: `Normal` content
/// at the cursor itself, `Lines` content as a whole line above the current
/// one (with a line feed appended if the content lacks one).
pub fn insert_clipboard_content_before(line_buffer: &mut LineBuffer, clipboard: &Clipboard)
    requires
        old(line_buffer).wf(),
    ensures
        final(line_buffer).wf(),
        final(line_buffer).model() == paste_into(old(line_buffer).model(), clipboard.model()),
{
    let (content, mode) = clipboard.get();
    match mode {
        ClipboardMode::Normal => {
            line_buffer.insert_str(content.as_str());
        },
        ClipboardMode::Lines => {
            line_buffer.move_to_line_start();
            line_buffer.move_line_up();
            let n = content.as_str().unicode_len();
            let mut content = content;
            if n == 0 {
                crate::line_buffer::push_char(&mut content, '\n');
            } else if content.as_str().get_char(n - 1) != '\n' {
                crate::line_buffer::push_char(&mut content, '\n');
            }
            line_buffer.insert_str(content.as_str());
            proof {
                assert(final(line_buffer).model() =~= paste_into(
                    old(line_buffer).model(),
                    clipboard.model(),
                ));
            }
        },
    }
}

/// Law: the editor invariant.  `Editor::default` establishes `wf` and
/// every public operation preserves it, so in every reachable state the
/// insertion point lies between zero and the buffer length and sits on a
/// grapheme-cluster boundary.
pub proof fn lemma_cursor_always_in_bounds(e: &Editor)
    requires
        e.wf(),
    ensures
        0 <= e.cursor() <= e.text().len(),
        is_boundary(e.text(), e.cursor()),
{
}

/// Law: removing `[start, end)` from a buffer and inserting the removed
/// text again at the range start restores the original character sequence
/// exactly.  The proviso excludes the one case where the cursor cannot sit
/// at the range start afterwards: a carriage return just before the range
/// meeting a line feed just after it, which fuse into a single grapheme
/// pair when the range goes away.
pub proof fn lemma_cut_paste_round_trip(s: Seq<char>, start: int, end: int)
    requires
        0 <= start <= end <= s.len(),
        !(0 < start && end < s.len() && s[start - 1] == '\r' && s[end] == '\n'),
    ensures
        clamp_boundary(remove_range(s, start, end), start) == start,
        insert_at(remove_range(s, start, end), start, s.subrange(start, end)) == s,
{
    let removed = remove_range(s, start, end);
    assert(insert_at(removed, start, s.subrange(start, end)) =~= s);
}

/// Law: a cut motion followed immediately by a paste of the local
/// clipboard slot at the same location reproduces the original buffer
/// content exactly, for every starting state and every motion — with the
/// same carriage-return/line-feed proviso as
/// [`lemma_cut_paste_round_trip`], since the cursor is what carries the
/// paste location.
#[verifier::rlimit(100)]
pub proof fn lemma_cut_then_paste_restores_buffer(m: EditorModel, motion: MotionKind)
    requires
        is_boundary(m.buf.text, m.buf.cursor),
        ({
            let dest = motion_target(m.buf, motion);
            let rs = if dest > m.buf.cursor {
                m.buf.cursor
            } else {
                dest
            };
            let re = if dest > m.buf.cursor {
                dest
            } else {
                m.buf.cursor
            };
            0 <= rs <= re <= m.buf.text.len() && !(0 < rs && re < m.buf.text.len()
                && m.buf.text[rs - 1] == '\r' && m.buf.text[re] == '\n')
        }),
    ensures
        run_model(
            run_model(m, &EditCommand::Motion { motion, action: MotionAction::Cut }),
            &EditCommand::PasteCutBuffer,
        ).buf.text == m.buf.text,
{
    let s = m.buf.text;
    let dest = motion_target(m.buf, motion);
    let rs = if dest > m.buf.cursor {
        m.buf.cursor
    } else {
        dest
    };
    let re = if dest > m.buf.cursor {
        dest
    } else {
        m.buf.cursor
    };
    lemma_cut_paste_round_trip(s, rs, re);
    let m1 = run_model(m, &EditCommand::Motion { motion, action: MotionAction::Cut });
    assert(m1.buf.text == remove_range(s, rs, re));
    assert(m1.buf.cursor == rs);
    assert(m1.anchor is None);
    assert(m1.cut.text == s.subrange(rs, re));
    let m2 = run_model(m1, &EditCommand::PasteCutBuffer);
    assert(m2.buf.text == insert_at(remove_range(s, rs, re), rs, s.subrange(rs, re)));
}

/// `n` undo commands in a row, run through the full command interpreter.
pub open spec fn run_undo_n(m: EditorModel, n: nat) -> EditorModel
    decreases n,
{
    if n == 0 {
        m
    } else {
        run_model(run_undo_n(m, (n - 1) as nat), &EditCommand::Undo)
    }
}

/// `n` redo commands in a row, run through the full command interpreter.
pub open spec fn run_redo_n(m: EditorModel, n: nat) -> EditorModel
    decreases n,
{
    if n == 0 {
        m
    } else {
        run_model(run_redo_n(m, (n - 1) as nat), &EditCommand::Redo)
    }
}

pub proof fn lemma_run_undo_n(m: EditorModel, n: nat)
    requires
        0 <= m.stack.index < m.stack.entries.len(),
        m.buf == m.stack.entries[m.stack.index],
    ensures
        run_undo_n(m, n).stack == crate::edit_stack::stack_undo_n(m.stack, n),
        run_undo_n(m, n).buf == run_undo_n(m, n).stack.entries[run_undo_n(m, n).stack.index],
        run_undo_n(m, n).cut == m.cut,
    decreases n,
{
    crate::edit_stack::lemma_stack_undo_n(m.stack, n);
    if n > 0 {
        lemma_run_undo_n(m, (n - 1) as nat);
        crate::edit_stack::lemma_stack_undo_n(m.stack, (n - 1) as nat);
    }
}

pub proof fn lemma_run_redo_n(m: EditorModel, n: nat)
    requires
        0 <= m.stack.index < m.stack.entries.len(),
        m.buf == m.stack.entries[m.stack.index],
    ensures
        run_redo_n(m, n).stack == crate::edit_stack::stack_redo_n(m.stack, n),
        run_redo_n(m, n).buf == run_redo_n(m, n).stack.entries[run_redo_n(m, n).stack.index],
        run_redo_n(m, n).cut == m.cut,
    decreases n,
{
    crate::edit_stack::lemma_stack_redo_n(m.stack, n);
    if n > 0 {
        lemma_run_redo_n(m, (n - 1) as nat);
        crate::edit_stack::lemma_stack_redo_n(m.stack, (n - 1) as nat);
    }
}

/// Law: undo/redo symmetry at the command level.  Start from any state
/// whose live buffer matches the snapshot at the stack's current index (as
/// it does immediately after any committed edit).  Undoing all the way
/// back to the oldest state and then redoing `k` steps leaves the recorded
/// snapshots untouched and makes the snapshot at index `k` — the buffer
/// content that existed immediately after the `k`-th committed forward
/// edit — the live buffer again.  Applied for each `k` up to the number of
/// undone steps, every intermediate redo state is pinned the same way.
pub proof fn lemma_undo_redo_round_trip(m: EditorModel, k: int)
    requires
        0 <= m.stack.index < m.stack.entries.len(),
        m.buf == m.stack.entries[m.stack.index],
        0 <= k <= m.stack.index,
    ensures
        ({
            let rewound = run_undo_n(m, m.stack.index as nat);
            let replayed = run_redo_n(rewound, k as nat);
            rewound.buf == m.stack.entries[0] && replayed.stack.entries == m.stack.entries
                && replayed.buf == m.stack.entries[k]
        }),
{
    let steps = m.stack.index as nat;
    lemma_run_undo_n(m, steps);
    crate::edit_stack::lemma_stack_undo_n(m.stack, steps);
    let rewound = run_undo_n(m, steps);
    lemma_run_redo_n(rewound, k as nat);
    crate::edit_stack::lemma_stack_redo_n(rewound.stack, k as nat);
}

impl Default for Editor {
    /// An empty editor: empty buffer, no selection, empty clipboard slots,
    /// and an undo history holding the empty state.
    fn default() -> (r: Editor)
        ensures
            r.wf(),
            r.text().len() == 0,
            r.cursor() == 0,
            r.model().anchor is None,
            r.model().cut.text.len() == 0,
            r.model().system.text.len() == 0,
            r.model().stack.entries.len() == 1,
            r.model().stack.index == 0,
            r.model().last_undo is CreateUndoPoint,
    {
        Editor {
            line_buffer: LineBuffer::new(),
            cut_buffer: Clipboard::new(),
            system_clipboard: Clipboard::new(),
            edit_stack: EditStack::new(),
            last_undo_behavior: UndoBehavior::CreateUndoPoint,
            selection_anchor: None,
        }
    }
}

} // verus!
