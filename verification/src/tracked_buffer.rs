//! The record that the action log keeps for each buffer.

use crate::buffer::Buffer;
use crate::clock::EditId;
use crate::clock::EditIdSet;
use crate::diff::clone_option_text;
use crate::diff::option_text;
use crate::diff::undoes_exactly;
use crate::diff::BufferDiff;
use crate::diff::DiffHunkView;
use crate::diff::DiffUpdate;
use vstd::prelude::*;

verus! {

/// What the tool has done to a buffer and the user has not yet reviewed.
#[derive(Debug)]
pub enum Change {
    /// The buffer exists. `edit_ids` are the edits that await review, and
    /// `initial_content` is the content from before the first of them, or
    /// nothing for a buffer that the tool created.
    Edited { edit_ids: EditIdSet, initial_content: Option<String> },
    /// The tool emptied the buffer. `deleted_content` is the content as it
    /// stood just before, and `deletion_id` the edit that emptied it, if
    /// there was anything to remove.
    Deleted { deleted_content: String, deletion_id: Option<EditId> },
}

/// A [`Change`] over sets and sequences.
pub enum ChangeView {
    Edited { edit_ids: Set<EditId>, initial_content: Option<Seq<char>> },
    Deleted { deleted_content: Seq<char>, deletion_id: Option<EditId> },
}

impl View for Change {
    type V = ChangeView;

    open spec fn view(&self) -> ChangeView {
        match *self {
            Change::Edited { edit_ids, initial_content } => ChangeView::Edited {
                edit_ids: edit_ids@,
                initial_content: option_text(initial_content),
            },
            Change::Deleted { deleted_content, deletion_id } => ChangeView::Deleted {
                deleted_content: deleted_content@,
                deletion_id,
            },
        }
    }
}

impl ChangeView {
    /// The edits that await review.
    pub open spec fn edit_ids(self) -> Set<EditId> {
        match self {
            ChangeView::Edited { edit_ids, .. } => edit_ids,
            ChangeView::Deleted { .. } => Set::empty(),
        }
    }
}

impl DiffUpdate {
    /// Whether these are the instructions that bring the diff up to date with
    /// `change`: for an edited buffer, to undo exactly the edits that await
    /// review, each without limit; for a deleted one, to diff against the
    /// deleted content.
    pub open spec fn recomputes(&self, change: ChangeView) -> bool {
        match change {
            ChangeView::Edited { edit_ids, initial_content } => {
                &&& *self matches DiffUpdate::Edited { edits_to_undo, initial_content: content }
                &&& undoes_exactly(edits_to_undo@, edit_ids)
                &&& option_text(content) == initial_content
            },
            ChangeView::Deleted { deleted_content, .. } => {
                &&& *self matches DiffUpdate::Deleted { base_text }
                &&& base_text@ == deleted_content
            },
        }
    }
}

/// The state that the action log keeps for one buffer.
#[derive(Debug)]
pub struct TrackedBuffer {
    /// What awaits review.
    pub change: Change,
    /// The version of the buffer when the tool last read or changed it.
    pub version: u64,
    /// The diff as it was last computed.
    pub diff: BufferDiff,
    /// Whether the diff has been asked to be recomputed and the request has
    /// not been taken up. Requests do not queue: many make one.
    pub diff_update: bool,
}

/// A [`TrackedBuffer`] over sets and sequences.
pub struct TrackedBufferView {
    pub change: ChangeView,
    pub version: u64,
    pub diff: Seq<DiffHunkView>,
    pub diff_update: bool,
}

impl View for TrackedBuffer {
    type V = TrackedBufferView;

    open spec fn view(&self) -> TrackedBufferView {
        TrackedBufferView {
            change: self.change@,
            version: self.version,
            diff: self.diff@,
            diff_update: self.diff_update,
        }
    }
}

impl TrackedBufferView {
    /// The record of a buffer that comes under tracking: nothing awaits
    /// review, the diff is empty, and the content of the buffer is the
    /// baseline unless the tool `created` the buffer.
    pub open spec fn new(buffer: Buffer, created: bool) -> TrackedBufferView {
        TrackedBufferView {
            change: ChangeView::Edited {
                edit_ids: Set::empty(),
                initial_content: if created {
                    None
                } else {
                    Some(buffer.text@)
                },
            },
            version: buffer.version,
            diff: Seq::empty(),
            diff_update: false,
        }
    }

    /// The record with another change.
    pub open spec fn with_change(self, change: ChangeView) -> TrackedBufferView {
        TrackedBufferView { change, ..self }
    }

    /// The record with a request to recompute its diff.
    pub open spec fn scheduled(self) -> TrackedBufferView {
        TrackedBufferView { diff_update: true, ..self }
    }

    /// Whether the diff shows a change.
    pub open spec fn has_changes(self) -> bool {
        self.diff.len() > 0
    }
}

impl TrackedBuffer {
    /// Starts the record of `buffer`.
    pub fn new(buffer: &Buffer, created: bool) -> (record: Self)
        ensures
            record@ == TrackedBufferView::new(*buffer, created),
    {
        TrackedBuffer {
            change: Change::Edited {
                edit_ids: EditIdSet::new(),
                initial_content: if created {
                    None
                } else {
                    Some(buffer.text.clone())
                },
            },
            version: buffer.version,
            diff: BufferDiff::new(),
            diff_update: false,
        }
    }

    /// Whether the diff as last computed shows a change.
    pub fn has_changes(&self) -> (changed: bool)
        ensures
            changed == self@.has_changes(),
    {
        self.diff.has_hunks()
    }

    /// Asks for the diff to be recomputed. Asking again before the request is
    /// taken up changes nothing.
    pub fn schedule_diff_update(&mut self)
        ensures
            final(self)@ == old(self)@.scheduled(),
    {
        self.diff_update = true;
    }

    /// The instructions that bring the diff up to date with the change as it
    /// stands now.
    pub fn update_diff(&self) -> (update: DiffUpdate)
        ensures
            update.recomputes(self@.change),
    {
        match &self.change {
            Change::Edited { edit_ids, initial_content } => {
                let ids = edit_ids.to_vec();
                let mut edits_to_undo: Vec<(EditId, u32)> = Vec::new();
                let mut i: usize = 0;
                while i < ids.len()
                    invariant
                        i <= ids.len(),
                        edits_to_undo@.len() == i,
                        forall|k: int|
                            0 <= k < i ==> #[trigger] edits_to_undo@[k] == (ids@[k], u32::MAX),
                    decreases ids.len() - i,
                {
                    edits_to_undo.push((ids[i], u32::MAX));
                    i += 1;
                }
                assert(crate::diff::edits_named(edits_to_undo@) =~= ids@);
                DiffUpdate::Edited { edits_to_undo, initial_content: clone_option_text(initial_content) }
            },
            Change::Deleted { deleted_content, .. } => DiffUpdate::Deleted {
                base_text: deleted_content.clone(),
            },
        }
    }
}

} // verus!
