//! The diff of a buffer against a base text, and the instructions from which
//! it is recomputed.

use crate::clock::EditId;
use crate::point::Point;
use std::ops::Range;
use vstd::prelude::*;

verus! {

/// The text of an optional string.
pub open spec fn option_text(content: Option<String>) -> Option<Seq<char>> {
    match content {
        Some(text) => Some(text@),
        None => None,
    }
}

/// A copy of an optional string.
pub fn clone_option_text(content: &Option<String>) -> (copy: Option<String>)
    ensures
        option_text(copy) == option_text(*content),
{
    match content {
        Some(text) => Some(text.clone()),
        None => None,
    }
}

/// What a hunk did to the base text.
#[derive(Clone, Copy, Debug, PartialEq, Eq, Structural)]
pub enum DiffHunkStatusKind {
    Added,
    Modified,
    Deleted,
}

/// One contiguous change: where it lies in the buffer, what kind it is, and
/// the text that it replaced.
#[derive(Debug)]
pub struct DiffHunk {
    pub range: Range<Point>,
    pub status: DiffHunkStatusKind,
    pub old_text: String,
}

/// A hunk with its replaced text as a sequence of characters.
pub struct DiffHunkView {
    pub range: Range<Point>,
    pub status: DiffHunkStatusKind,
    pub old_text: Seq<char>,
}

impl View for DiffHunk {
    type V = DiffHunkView;

    open spec fn view(&self) -> DiffHunkView {
        DiffHunkView { range: self.range, status: self.status, old_text: self.old_text@ }
    }
}

impl Clone for DiffHunk {
    fn clone(&self) -> (copy: Self)
        ensures
            copy@ == self@,
    {
        DiffHunk {
            range: Range { start: self.range.start, end: self.range.end },
            status: self.status,
            old_text: self.old_text.clone(),
        }
    }
}

/// The hunks by which a buffer differs from its base text, in the order of
/// the text.
#[derive(Debug)]
pub struct BufferDiff {
    pub hunks: Vec<DiffHunk>,
}

impl View for BufferDiff {
    type V = Seq<DiffHunkView>;

    open spec fn view(&self) -> Seq<DiffHunkView> {
        self.hunks@.map_values(|hunk: DiffHunk| hunk@)
    }
}

impl BufferDiff {
    /// The diff of a buffer against itself: no hunks.
    pub fn new() -> (diff: Self)
        ensures
            diff@ == Seq::<DiffHunkView>::empty(),
    {
        let diff = BufferDiff { hunks: Vec::new() };
        assert(diff@ =~= Seq::<DiffHunkView>::empty());
        diff
    }

    /// Whether the diff holds at least one hunk.
    pub fn has_hunks(&self) -> (some: bool)
        ensures
            some == (self@.len() > 0),
    {
        self.hunks.len() > 0
    }
}

impl Clone for BufferDiff {
    fn clone(&self) -> (copy: Self)
        ensures
            copy@ == self@,
    {
        let mut hunks: Vec<DiffHunk> = Vec::new();
        let mut i: usize = 0;
        while i < self.hunks.len()
            invariant
                i <= self.hunks.len(),
                hunks@.len() == i,
                forall|k: int| 0 <= k < i ==> hunks@[k]@ == self.hunks@[k]@,
            decreases self.hunks.len() - i,
        {
            hunks.push(self.hunks[i].clone());
            i += 1;
        }
        let copy = BufferDiff { hunks };
        assert(copy@ =~= self@);
        copy
    }
}

/// How to recompute the diff of one buffer.
#[derive(Debug)]
pub enum DiffUpdate {
    /// Take a scratch copy of the buffer, undo on it each edit listed in
    /// `edits_to_undo` as often as the number beside it says, and diff the
    /// buffer against the copy. `initial_content` is the content from before
    /// the first tracked edit, or nothing for a buffer that the tool created.
    Edited { edits_to_undo: Vec<(EditId, u32)>, initial_content: Option<String> },
    /// Diff the buffer against `base_text`, the content that the tool deleted.
    Deleted { base_text: String },
}

/// The edits that a list of undo instructions names.
pub open spec fn edits_named(edits_to_undo: Seq<(EditId, u32)>) -> Seq<EditId> {
    edits_to_undo.map_values(|entry: (EditId, u32)| entry.0)
}

/// Whether `edits_to_undo` names each edit of `edit_ids` once, and no other,
/// each to be undone without limit.
pub open spec fn undoes_exactly(edits_to_undo: Seq<(EditId, u32)>, edit_ids: Set<EditId>) -> bool {
    &&& edits_named(edits_to_undo).no_duplicates()
    &&& edits_named(edits_to_undo).to_set() == edit_ids
    &&& forall|i: int| 0 <= i < edits_to_undo.len() ==> (#[trigger] edits_to_undo[i]).1 == u32::MAX
}

} // verus!
