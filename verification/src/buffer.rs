//! What the action log reads from a live text buffer, as plain values.

use crate::clock::EditId;
use crate::clock::EditIdSet;
use crate::ranges::sorted_by_start;
use std::ops::Range;
use vstd::prelude::*;

verus! {

/// How the file behind a buffer stands on disk.
#[derive(Clone, Copy, Debug, PartialEq, Eq, Structural)]
pub enum DiskState {
    /// The file has never been written.
    New,
    /// The file exists.
    Present,
    /// The file existed and has been removed.
    Deleted,
}

/// One stretch of text that an edit touched, at its present offsets.
#[derive(Debug)]
pub struct EditedRange {
    pub edit_id: EditId,
    pub range: Range<usize>,
}

/// A buffer as it stands at the moment of a call: its identity and the parts
/// of its state that the action log consults.
#[derive(Debug)]
pub struct Buffer {
    /// The identity of the buffer, which also orders buffers.
    pub id: u64,
    /// The content.
    pub text: String,
    /// The version, which moves on with every edit.
    pub version: u64,
    /// The state of the file behind the buffer, if it has one.
    pub file: Option<DiskState>,
    /// The stretches of text touched by the edits that the buffer can still
    /// resolve, in the order of the text. An edit may own several stretches,
    /// and a stretch may be owned by several edits.
    pub edited_ranges: Vec<EditedRange>,
}

/// An edit as the buffer announces it.
#[derive(Clone, Copy, Debug, PartialEq, Eq, Structural)]
pub struct EditOperation {
    pub timestamp: EditId,
}

/// An operation on the text of a buffer.
#[derive(Clone, Copy, Debug, PartialEq, Eq, Structural)]
pub enum TextOperation {
    Edit(EditOperation),
    Undo,
}

/// An operation that a buffer has applied.
#[derive(Clone, Copy, Debug, PartialEq, Eq, Structural)]
pub enum Operation {
    Buffer(TextOperation),
    UpdateDiagnostics,
    UpdateSelections,
    UpdateCompletionTriggers,
}

/// What a buffer reports to its subscribers.
#[derive(Clone, Copy, Debug, PartialEq, Eq, Structural)]
pub enum BufferEvent {
    /// The buffer applied an operation.
    Operation { operation: Operation, is_local: bool },
    /// The content changed.
    Edited,
    /// The buffer was saved.
    Saved,
    /// The file behind the buffer changed on disk.
    FileHandleChanged,
    /// The content was read again from disk.
    Reloaded,
}

/// The ranges among `edits` that belong to an edit in `ids`, in the order in
/// which `edits` lists them.
pub open spec fn ranges_of_edits(edits: Seq<EditedRange>, ids: Set<EditId>) -> Seq<Range<usize>>
    decreases edits.len(),
{
    if edits.len() == 0 {
        Seq::empty()
    } else {
        let before = ranges_of_edits(edits.drop_last(), ids);
        if ids.contains(edits.last().edit_id) {
            before.push(edits.last().range)
        } else {
            before
        }
    }
}

/// Every range that `ranges_of_edits` selects is the range of a listed edit
/// whose identifier is in `ids`.
pub proof fn lemma_ranges_of_edits_origin(edits: Seq<EditedRange>, ids: Set<EditId>, k: int)
    requires
        0 <= k < ranges_of_edits(edits, ids).len(),
    ensures
        exists|i: int|
            0 <= i < edits.len() && ids.contains(#[trigger] edits[i].edit_id) && edits[i].range
                == ranges_of_edits(edits, ids)[k],
    decreases edits.len(),
{
    let before = ranges_of_edits(edits.drop_last(), ids);
    if k < before.len() {
        lemma_ranges_of_edits_origin(edits.drop_last(), ids, k);
        let i = choose|i: int|
            0 <= i < edits.drop_last().len() && ids.contains(
                #[trigger] edits.drop_last()[i].edit_id,
            ) && edits.drop_last()[i].range == before[k];
        assert(edits[i] == edits.drop_last()[i]);
    } else {
        assert(edits[edits.len() - 1] == edits.last());
    }
}

/// Every listed edit whose identifier is in `ids` has its range selected by
/// `ranges_of_edits`.
pub proof fn lemma_ranges_of_edits_complete(edits: Seq<EditedRange>, ids: Set<EditId>, i: int)
    requires
        0 <= i < edits.len(),
        ids.contains(edits[i].edit_id),
    ensures
        ranges_of_edits(edits, ids).contains(edits[i].range),
    decreases edits.len(),
{
    let before = ranges_of_edits(edits.drop_last(), ids);
    let all = ranges_of_edits(edits, ids);
    if i < edits.len() - 1 {
        assert(edits.drop_last()[i] == edits[i]);
        lemma_ranges_of_edits_complete(edits.drop_last(), ids, i);
        let k = choose|k: int| 0 <= k < before.len() && before[k] == edits[i].range;
        assert(all[k] == edits[i].range);
    } else {
        assert(all[all.len() - 1] == edits[i].range);
    }
}

impl Buffer {
    /// The ranges that the edits in `ids` touched, in the order of the text.
    pub open spec fn spec_edited_ranges_for_edit_ids(&self, ids: Set<EditId>) -> Seq<Range<usize>> {
        ranges_of_edits(self.edited_ranges@, ids)
    }

    /// Whether the buffer lists its edited ranges by ascending start.
    pub open spec fn lists_ranges_in_order(&self) -> bool {
        forall|i: int, j: int|
            0 <= i <= j < self.edited_ranges@.len() ==> self.edited_ranges@[i].range.start
                <= self.edited_ranges@[j].range.start
    }

    /// A buffer that lists its edited ranges by ascending start resolves every
    /// set of edits to ranges in ascending order.
    pub proof fn lemma_resolves_in_order(&self, ids: Set<EditId>)
        requires
            self.lists_ranges_in_order(),
        ensures
            sorted_by_start(self.spec_edited_ranges_for_edit_ids(ids)),
    {
        lemma_ranges_of_edits_sorted(self.edited_ranges@, ids);
    }

    /// Resolves the edits in `edit_ids` to the ranges of text that they touched.
    /// An identifier that the buffer cannot resolve contributes nothing.
    pub fn edited_ranges_for_edit_ids(&self, edit_ids: &EditIdSet) -> (ranges: Vec<Range<usize>>)
        ensures
            ranges@ == self.spec_edited_ranges_for_edit_ids(edit_ids@),
    {
        let mut ranges: Vec<Range<usize>> = Vec::new();
        let mut i: usize = 0;
        while i < self.edited_ranges.len()
            invariant
                i <= self.edited_ranges.len(),
                ranges@ == ranges_of_edits(self.edited_ranges@.take(i as int), edit_ids@),
            decreases self.edited_ranges.len() - i,
        {
            let edited = &self.edited_ranges[i];
            proof {
                let next = self.edited_ranges@.take(i as int + 1);
                assert(next.drop_last() =~= self.edited_ranges@.take(i as int));
                assert(next.last() == self.edited_ranges@[i as int]);
            }
            if edit_ids.contains(edited.edit_id) {
                ranges.push(Range { start: edited.range.start, end: edited.range.end });
            }
            i += 1;
        }
        assert(self.edited_ranges@.take(self.edited_ranges.len() as int) =~= self.edited_ranges@);
        ranges
    }

    /// Resolves one edit to the ranges of text that it touched.
    pub fn edited_ranges_for_edit_id(&self, edit_id: EditId) -> (ranges: Vec<Range<usize>>)
        ensures
            ranges@ == self.spec_edited_ranges_for_edit_ids(set![edit_id]),
    {
        let mut edit_ids = EditIdSet::new();
        edit_ids.insert(edit_id);
        assert(edit_ids@ =~= set![edit_id]);
        self.edited_ranges_for_edit_ids(&edit_ids)
    }
}

/// Selecting ranges from a list in ascending order of start keeps that order.
pub proof fn lemma_ranges_of_edits_sorted(edits: Seq<EditedRange>, ids: Set<EditId>)
    requires
        forall|i: int, j: int|
            0 <= i <= j < edits.len() ==> edits[i].range.start <= edits[j].range.start,
    ensures
        sorted_by_start(ranges_of_edits(edits, ids)),
    decreases edits.len(),
{
    if edits.len() > 0 {
        let shorter = edits.drop_last();
        assert forall|i: int, j: int| 0 <= i <= j < shorter.len() implies shorter[i].range.start
            <= shorter[j].range.start by {
            assert(shorter[i] == edits[i]);
            assert(shorter[j] == edits[j]);
        }
        lemma_ranges_of_edits_sorted(shorter, ids);
        let before = ranges_of_edits(shorter, ids);
        let all = ranges_of_edits(edits, ids);
        assert forall|i: int, j: int| 0 <= i <= j < all.len() implies all[i].start
            <= all[j].start by {
            if j >= before.len() && i < before.len() {
                lemma_ranges_of_edits_origin(shorter, ids, i);
                let k = choose|k: int|
                    0 <= k < shorter.len() && ids.contains(#[trigger] shorter[k].edit_id)
                        && shorter[k].range == before[i];
                assert(shorter[k] == edits[k]);
                assert(edits[k].range.start <= edits[edits.len() - 1].range.start);
            }
        }
    }
}

} // verus!
