//! The undo/redo stack: a growable list of buffer snapshots plus an index
//! pointing at the snapshot that matches the most recently committed state.
//! Undo and redo only move the index; committing a new edit after an undo
//! discards the snapshots beyond the index.

use crate::line_buffer::BufferModel;
use crate::line_buffer::LineBuffer;
use vstd::prelude::*;

verus! {

/// A spec-level snapshot of the stack: the recorded buffer states and the
/// index of the current one.
#[verifier::ext_equal]
pub ghost struct StackModel {
    pub entries: Seq<BufferModel>,
    pub index: int,
}

/// One undo step: the index moves back one entry, stopping at the oldest.
pub open spec fn stack_undo(m: StackModel) -> StackModel {
    StackModel {
        entries: m.entries,
        index: if m.index > 0 {
            m.index - 1
        } else {
            0
        },
    }
}

/// One redo step: the index moves forward one entry, stopping at the newest.
pub open spec fn stack_redo(m: StackModel) -> StackModel {
    StackModel {
        entries: m.entries,
        index: if m.index + 1 < m.entries.len() {
            m.index + 1
        } else {
            m.index
        },
    }
}

/// The stack after committing a snapshot as a new undo point: everything
/// beyond the current index is discarded, the snapshot is appended, and the
/// index moves onto it.
pub open spec fn stack_insert(m: StackModel, b: BufferModel) -> StackModel {
    StackModel { entries: m.entries.subrange(0, m.index + 1).push(b), index: m.index + 1 }
}

/// `n` undo steps in a row.
pub open spec fn stack_undo_n(m: StackModel, n: nat) -> StackModel
    decreases n,
{
    if n == 0 {
        m
    } else {
        stack_undo(stack_undo_n(m, (n - 1) as nat))
    }
}

/// `n` redo steps in a row.
pub open spec fn stack_redo_n(m: StackModel, n: nat) -> StackModel
    decreases n,
{
    if n == 0 {
        m
    } else {
        stack_redo(stack_redo_n(m, (n - 1) as nat))
    }
}

pub proof fn lemma_stack_undo_n(m: StackModel, n: nat)
    requires
        0 <= m.index < m.entries.len(),
    ensures
        stack_undo_n(m, n).entries == m.entries,
        stack_undo_n(m, n).index == if m.index - n >= 0 {
            m.index - n
        } else {
            0
        },
    decreases n,
{
    if n > 0 {
        lemma_stack_undo_n(m, (n - 1) as nat);
    }
}

pub proof fn lemma_stack_redo_n(m: StackModel, n: nat)
    requires
        0 <= m.index < m.entries.len(),
    ensures
        stack_redo_n(m, n).entries == m.entries,
        stack_redo_n(m, n).index == if m.index + n < m.entries.len() {
            m.index + n
        } else {
            m.entries.len() - 1
        },
    decreases n,
{
    if n > 0 {
        lemma_stack_redo_n(m, (n - 1) as nat);
    }
}

/// Law: undo/redo symmetry.  Undo and redo only move the index over the
/// recorded snapshots and never change them, so after undoing from any
/// reachable position all the way back to the oldest state and then
/// redoing `k` steps, the stack sits exactly at entry `k` again — the
/// buffer state that was committed by the `k`-th forward edit.  Since
/// [`crate::Editor::undo`] and [`crate::Editor::redo`] always make the
/// snapshot at the new index the live buffer, each redone step reproduces
/// the buffer content that existed immediately after the corresponding
/// forward edit.
pub proof fn lemma_undo_redo_symmetry(m: StackModel, k: int)
    requires
        0 <= m.index < m.entries.len(),
        0 <= k <= m.index,
    ensures
        stack_undo_n(m, m.index as nat).entries == m.entries,
        stack_undo_n(m, m.index as nat).index == 0,
        stack_redo_n(stack_undo_n(m, m.index as nat), k as nat).entries == m.entries,
        stack_redo_n(stack_undo_n(m, m.index as nat), k as nat).index == k,
{
    lemma_stack_undo_n(m, m.index as nat);
    lemma_stack_redo_n(stack_undo_n(m, m.index as nat), k as nat);
}

/// Bounded stack of buffer snapshots with a cursor into the sequence.
pub struct EditStack {
    internal_list: Vec<LineBuffer>,
    index: usize,
}

impl EditStack {
    pub closed spec fn entries(&self) -> Seq<BufferModel> {
        self.internal_list@.map_values(|lb: LineBuffer| lb.model())
    }

    pub closed spec fn current_index(&self) -> int {
        self.index as int
    }

    pub open spec fn model(&self) -> StackModel {
        StackModel { entries: self.entries(), index: self.current_index() }
    }

    /// The stack invariant: never empty, the index in range, and every
    /// snapshot well formed.
    pub open spec fn wf(&self) -> bool {
        &&& 0 <= self.current_index() < self.entries().len()
        &&& forall|i: int| 0 <= i < self.entries().len() ==> (#[trigger] self.entries()[i]).wf()
    }

    /// A stack holding one empty snapshot.
    pub fn new() -> (r: EditStack)
        ensures
            r.wf(),
            r.model().entries.len() == 1,
            r.model().entries[0].text == Seq::<char>::empty(),
            r.model().entries[0].cursor == 0,
            r.model().index == 0,
    {
        let mut v: Vec<LineBuffer> = Vec::new();
        v.push(LineBuffer::new());
        let r = EditStack { internal_list: v, index: 0 };
        proof {
            assert(r.entries()[0] =~= BufferModel { text: Seq::<char>::empty(), cursor: 0 });
        }
        r
    }

    /// Drops all history, leaving one empty snapshot.
    pub fn reset(&mut self)
        ensures
            final(self).wf(),
            final(self).model().entries.len() == 1,
            final(self).model().entries[0].text == Seq::<char>::empty(),
            final(self).model().entries[0].cursor == 0,
            final(self).model().index == 0,
    {
        let fresh = EditStack::new();
        *self = fresh;
    }

    /// The snapshot at the current index.
    pub fn current(&self) -> (r: &LineBuffer)
        requires
            self.wf(),
        ensures
            r.model() == self.entries()[self.current_index()],
            r.wf(),
    {
        proof {
            assert(self.entries()[self.current_index()].wf());
        }
        &self.internal_list[self.index]
    }

    /// Moves one step back in the history (a no-op at the oldest entry) and
    /// returns the snapshot now current.
    pub fn undo(&mut self) -> (r: &LineBuffer)
        requires
            old(self).wf(),
        ensures
            final(self).model() == stack_undo(old(self).model()),
            final(self).wf(),
            r.model() == final(self).entries()[final(self).current_index()],
            r.wf(),
    {
        if self.index > 0 {
            self.index = self.index - 1;
        }
        proof {
            assert(self.entries()[self.current_index()].wf());
        }
        &self.internal_list[self.index]
    }

    /// Moves one step forward in the history (a no-op at the newest entry)
    /// and returns the snapshot now current.
    pub fn redo(&mut self) -> (r: &LineBuffer)
        requires
            old(self).wf(),
        ensures
            final(self).model() == stack_redo(old(self).model()),
            final(self).wf(),
            r.model() == final(self).entries()[final(self).current_index()],
            r.wf(),
    {
        let n = self.internal_list.len();
        if self.index + 1 < n {
            self.index = self.index + 1;
        }
        proof {
            assert(self.entries()[self.current_index()].wf());
        }
        &self.internal_list[self.index]
    }

    /// Commits `el` as a new undo point, discarding any entries past the
    /// current index.
    pub fn insert(&mut self, el: LineBuffer)
        requires
            old(self).wf(),
            el.wf(),
        ensures
            final(self).model() == stack_insert(old(self).model(), el.model()),
            final(self).wf(),
    {
        let n = self.internal_list.len();
        proof {
            assert(self.current_index() < n);
        }
        self.internal_list.truncate(self.index + 1);
        self.internal_list.push(el);
        self.index = self.index + 1;
        proof {
            assert(final(self).model().entries =~= stack_insert(
                old(self).model(),
                el.model(),
            ).entries);
        }
    }
}

} // verus!
