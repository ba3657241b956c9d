//! The action log: which buffers the tool has touched, which of its edits
//! await review, and what the user has since kept.

use crate::buffer::Buffer;
use crate::buffer::BufferEvent;
use crate::buffer::DiskState;
use crate::buffer::Operation;
use crate::buffer::TextOperation;
use crate::clock::EditId;
use crate::clock::EditIdSet;
use crate::diff::BufferDiff;
use crate::diff::DiffHunkView;
use crate::diff::DiffUpdate;
use crate::key_order::lemma_increasing_keys_ascend;
use crate::ranges::ranges_intersect;
use crate::ranges::ranges_touch;
use crate::ranges::spec_ranges_intersect;
use crate::tracked_buffer::Change;
use crate::tracked_buffer::ChangeView;
use crate::tracked_buffer::TrackedBuffer;
use crate::tracked_buffer::TrackedBufferView;
use std::collections::BTreeMap;
use std::collections::HashSet;
use std::ops::Range;
use vstd::prelude::*;
use vstd::std_specs::iter::IteratorSpec;

verus! {

/// The edits named by an optional identifier: one or none.
pub open spec fn option_edit_ids(edit_id: Option<EditId>) -> Set<EditId> {
    match edit_id {
        Some(id) => set![id],
        None => Set::empty(),
    }
}

impl Buffer {
    /// Whether a stretch of text that the edit `edit_id` touched meets
    /// `range`, both read as closed intervals.
    pub open spec fn edit_touches(&self, edit_id: EditId, range: Range<usize>) -> bool {
        let edited = self.spec_edited_ranges_for_edit_ids(set![edit_id]);
        exists|k: int| 0 <= k < edited.len() && ranges_touch(range, #[trigger] edited[k])
    }

    /// Whether the stretches of text that the edit `edit_id` touched run into
    /// those of the edits in `edit_ids`, by the overlap test on ranges.
    pub open spec fn edit_overlaps(&self, edit_id: EditId, edit_ids: Set<EditId>) -> bool {
        spec_ranges_intersect(
            self.spec_edited_ranges_for_edit_ids(set![edit_id]),
            self.spec_edited_ranges_for_edit_ids(edit_ids),
        )
    }

    /// Whether the file behind the buffer is known to be gone from disk.
    pub open spec fn file_deleted(&self) -> bool {
        self.file == Some(DiskState::Deleted)
    }

    /// Whether the buffer has a file that is not gone from disk.
    pub open spec fn file_exists(&self) -> bool {
        self.file is Some && self.file != Some(DiskState::Deleted)
    }
}

impl ChangeView {
    /// The change once the tool has made the edits `edit_ids`. On an edited
    /// buffer they join the edits that await review. On a deleted buffer the
    /// tool has brought content back: the deleted content becomes the
    /// baseline, and the deletion awaits review beside the new edits.
    pub open spec fn edited(self, edit_ids: Set<EditId>) -> ChangeView {
        match self {
            ChangeView::Edited { edit_ids: existing, initial_content } => ChangeView::Edited {
                edit_ids: existing.union(edit_ids),
                initial_content,
            },
            ChangeView::Deleted { deleted_content, deletion_id } => ChangeView::Edited {
                edit_ids: edit_ids.union(option_edit_ids(deletion_id)),
                initial_content: Some(deleted_content),
            },
        }
    }

    /// Whether the user's edit `edit_id` is to join the edits that await
    /// review: the buffer is edited, the edit is not among them yet, and it
    /// runs into text that they touched.
    pub open spec fn attributes(self, buffer: Buffer, edit_id: EditId) -> bool {
        &&& self matches ChangeView::Edited { edit_ids, .. }
        &&& !edit_ids.contains(edit_id)
        &&& buffer.edit_overlaps(edit_id, edit_ids)
    }

    /// The change of an edited buffer once the user has kept what lies in
    /// `range`: the edits that touch `range` no longer await review.
    pub open spec fn kept(self, buffer: Buffer, range: Range<usize>) -> ChangeView {
        match self {
            ChangeView::Edited { edit_ids, initial_content } => ChangeView::Edited {
                edit_ids: edit_ids.filter(|id: EditId| !buffer.edit_touches(id, range)),
                initial_content,
            },
            ChangeView::Deleted { .. } => self,
        }
    }

    /// The change of a buffer that reappeared on disk after the tool had
    /// deleted it: nothing awaits review, and the content found is the
    /// baseline.
    pub open spec fn resurrected(buffer: Buffer) -> ChangeView {
        ChangeView::Edited { edit_ids: Set::empty(), initial_content: Some(buffer.text@) }
    }
}

/// An [`ActionLog`] over sets and maps.
pub struct ActionLogView {
    /// The buffers that the tool has edited since they were last taken.
    pub stale_buffers_in_context: Set<u64>,
    /// The record of every buffer under tracking, by the buffer's identity.
    pub tracked_buffers: Map<u64, TrackedBufferView>,
    /// Whether the tool has edited a buffer since diagnostics were last
    /// checked.
    pub edited_since_project_diagnostics_check: bool,
}

impl ActionLogView {
    /// The log that tracks nothing.
    pub open spec fn new() -> ActionLogView {
        ActionLogView {
            stale_buffers_in_context: Set::empty(),
            tracked_buffers: Map::empty(),
            edited_since_project_diagnostics_check: false,
        }
    }

    /// Whether the buffer `id` is under tracking.
    pub open spec fn tracks(self, id: u64) -> bool {
        self.tracked_buffers.contains_key(id)
    }

    /// The log with `record` as the record of the buffer `id`.
    pub open spec fn with_record(self, id: u64, record: TrackedBufferView) -> ActionLogView {
        ActionLogView { tracked_buffers: self.tracked_buffers.insert(id, record), ..self }
    }

    /// The log without a record of the buffer `id`.
    pub open spec fn without_record(self, id: u64) -> ActionLogView {
        ActionLogView { tracked_buffers: self.tracked_buffers.remove(id), ..self }
    }

    /// The log once `buffer` is under tracking and seen at its present
    /// version. A buffer that was not tracked gets a fresh record.
    pub open spec fn track_buffer(self, buffer: Buffer, created: bool) -> ActionLogView {
        let record = if self.tracks(buffer.id) {
            self.tracked_buffers[buffer.id]
        } else {
            TrackedBufferView::new(buffer, created)
        };
        self.with_record(buffer.id, TrackedBufferView { version: buffer.version, ..record })
    }

    /// The log once the tool has made the edits `edit_ids` to `buffer`: a
    /// buffer has been edited since the last check of diagnostics, `buffer` is
    /// stale in the context and under tracking, the edits are folded into its
    /// change, and its diff is to be recomputed.
    pub open spec fn buffer_edited(self, buffer: Buffer, edit_ids: Set<EditId>) -> ActionLogView {
        let marked = ActionLogView {
            stale_buffers_in_context: self.stale_buffers_in_context.insert(buffer.id),
            edited_since_project_diagnostics_check: true,
            ..self
        };
        let logged = marked.track_buffer(buffer, false);
        let record = logged.tracked_buffers[buffer.id];
        logged.with_record(
            buffer.id,
            record.with_change(record.change.edited(edit_ids)).scheduled(),
        )
    }

    /// The log once the tool has created `buffer`, by the edit `edit_id` if
    /// the buffer was given content. A buffer that was not tracked starts
    /// without a baseline.
    pub open spec fn will_create_buffer(
        self,
        buffer: Buffer,
        edit_id: Option<EditId>,
    ) -> ActionLogView {
        self.track_buffer(buffer, true).buffer_edited(buffer, option_edit_ids(edit_id))
    }

    /// Whether the tool, deleting `buffer`, has to empty it: the buffer has,
    /// or gets with this call, a baseline to compare the empty buffer with.
    pub open spec fn deletion_clears(self, buffer: Buffer) -> bool {
        self.track_buffer(buffer, false).tracked_buffers[buffer.id].change matches ChangeView::Edited {
            initial_content: Some(_),
            ..
        }
    }

    /// The log once the tool has set out to delete `buffer`. With a baseline
    /// the buffer counts as deleted, its diff is to be recomputed, and the
    /// edit that empties it is still to be reported. Without one, the tool
    /// made the buffer and nothing is left to review: the record goes. A
    /// buffer that already counts as deleted stays as it is.
    pub open spec fn will_delete_buffer(self, buffer: Buffer) -> ActionLogView {
        let logged = self.track_buffer(buffer, false);
        let record = logged.tracked_buffers[buffer.id];
        match record.change {
            ChangeView::Edited { initial_content: Some(content), .. } => logged.with_record(
                buffer.id,
                record.with_change(
                    ChangeView::Deleted { deleted_content: content, deletion_id: None },
                ).scheduled(),
            ),
            ChangeView::Edited { initial_content: None, .. } => logged.without_record(buffer.id),
            ChangeView::Deleted { .. } => logged,
        }
    }

    /// The log once the buffer `id`, which counts as deleted, has been
    /// emptied by the edit `deletion_id`, or was found empty already.
    pub open spec fn buffer_cleared(self, id: u64, deletion_id: Option<EditId>) -> ActionLogView {
        if self.tracks(id) {
            let record = self.tracked_buffers[id];
            match record.change {
                ChangeView::Deleted { deleted_content, .. } => self.with_record(
                    id,
                    record.with_change(
                        ChangeView::Deleted { deleted_content, deletion_id },
                    ).scheduled(),
                ),
                ChangeView::Edited { .. } => self,
            }
        } else {
            self
        }
    }

    /// The log once the user has kept the changes of `buffer` that lie in
    /// `range`. A deletion is kept whole: the record goes. On an edited
    /// buffer every edit that touches `range` stops awaiting review, and the
    /// diff is to be recomputed whether or not any did. A buffer that is not
    /// tracked changes nothing.
    pub open spec fn keep_edits_in_range(self, buffer: Buffer, range: Range<usize>) -> ActionLogView {
        if self.tracks(buffer.id) {
            let record = self.tracked_buffers[buffer.id];
            match record.change {
                ChangeView::Deleted { .. } => self.without_record(buffer.id),
                ChangeView::Edited { .. } => self.with_record(
                    buffer.id,
                    record.with_change(record.change.kept(buffer, range)).scheduled(),
                ),
            }
        } else {
            self
        }
    }

    /// The log once `buffer` has applied `operation`. An edit that is not yet
    /// awaiting review and runs into text touched by edits that are joins
    /// them, and the diff is to be recomputed. Anything else changes nothing.
    pub open spec fn handle_buffer_operation(
        self,
        buffer: Buffer,
        operation: Operation,
    ) -> ActionLogView {
        match operation {
            Operation::Buffer(TextOperation::Edit(edit)) => {
                if self.tracks(buffer.id) && self.tracked_buffers[buffer.id].change.attributes(
                    buffer,
                    edit.timestamp,
                ) {
                    let record = self.tracked_buffers[buffer.id];
                    self.with_record(
                        buffer.id,
                        record.with_change(record.change.edited(set![edit.timestamp])).scheduled(),
                    )
                } else {
                    self
                }
            },
            _ => self,
        }
    }

    /// The log once the file behind `buffer` has changed on disk. A buffer
    /// that the tool deleted and that is on disk again starts over with the
    /// content found as its baseline. A buffer that the tool edited and that
    /// is gone from disk leaves tracking. In every other case the record
    /// stays, and wherever a record stays its diff is to be recomputed.
    pub open spec fn handle_buffer_file_changed(self, buffer: Buffer) -> ActionLogView {
        if self.tracks(buffer.id) {
            let record = self.tracked_buffers[buffer.id];
            match record.change {
                ChangeView::Deleted { .. } => self.with_record(
                    buffer.id,
                    if buffer.file_exists() {
                        record.with_change(ChangeView::resurrected(buffer)).scheduled()
                    } else {
                        record.scheduled()
                    },
                ),
                ChangeView::Edited { .. } => if buffer.file_deleted() {
                    self.without_record(buffer.id)
                } else {
                    self.with_record(buffer.id, record.scheduled())
                },
            }
        } else {
            self
        }
    }

    /// The log once `buffer` has reported `event`.
    pub open spec fn handle_buffer_event(self, buffer: Buffer, event: BufferEvent) -> ActionLogView {
        match event {
            BufferEvent::Operation { operation, .. } => self.handle_buffer_operation(
                buffer,
                operation,
            ),
            BufferEvent::FileHandleChanged => self.handle_buffer_file_changed(buffer),
            _ => self,
        }
    }

    /// Whether the diff of the buffer `id` is waiting to be recomputed.
    pub open spec fn diff_update_due(self, id: u64) -> bool {
        self.tracks(id) && self.tracked_buffers[id].diff_update
    }

    /// The log once the request to recompute the diff of the buffer `id` has
    /// been taken up.
    pub open spec fn diff_update_taken(self, id: u64) -> ActionLogView {
        self.with_record(
            id,
            TrackedBufferView { diff_update: false, ..self.tracked_buffers[id] },
        )
    }

    /// The log once the diff of the buffer `id` has been recomputed as
    /// `diff`. The result for a buffer that has left tracking is dropped.
    pub open spec fn diff_updated(self, id: u64, diff: Seq<DiffHunkView>) -> ActionLogView {
        if self.tracks(id) {
            self.with_record(id, TrackedBufferView { diff, ..self.tracked_buffers[id] })
        } else {
            self
        }
    }

    /// The diffs of the buffers whose diff shows a change.
    pub open spec fn changed_buffers(self) -> Map<u64, Seq<DiffHunkView>> {
        Map::new(
            |id: u64| self.tracks(id) && self.tracked_buffers[id].has_changes(),
            |id: u64| self.tracked_buffers[id].diff,
        )
    }

    /// Whether the buffer `id` is tracked and stands, by `versions`, at
    /// another version than the tool last saw.
    pub open spec fn is_stale(self, versions: Map<u64, u64>, id: u64) -> bool {
        self.tracks(id) && versions.contains_key(id) && versions[id]
            != self.tracked_buffers[id].version
    }
}

/// A buffer with changes that the user has not reviewed, by its diff.
#[derive(Debug)]
pub struct ChangedBuffer {
    pub diff: BufferDiff,
}

/// Why the diff of a buffer cannot be maintained any longer.
#[derive(Clone, Copy, Debug, PartialEq, Eq, Structural)]
pub enum ActionLogError {
    /// The buffer has left tracking.
    BufferNotTracked,
}

impl ActionLogError {
    /// The error in words.
    pub fn message(&self) -> (text: &'static str)
        ensures
            text@ == "buffer not tracked"@,
    {
        match self {
            ActionLogError::BufferNotTracked => "buffer not tracked",
        }
    }
}

/// Tracks what a tool does to buffers, and what of it the user has reviewed.
#[derive(Debug)]
pub struct ActionLog {
    /// Buffers of the context that the tool has edited since they were last
    /// taken.
    stale_buffers_in_context: HashSet<u64>,
    /// The buffers whose changes are followed.
    tracked_buffers: BTreeMap<u64, TrackedBuffer>,
    /// Has the tool edited a buffer since diagnostics were last checked?
    edited_since_project_diagnostics_check: bool,
}

impl View for ActionLog {
    type V = ActionLogView;

    closed spec fn view(&self) -> ActionLogView {
        ActionLogView {
            stale_buffers_in_context: self.stale_buffers_in_context@,
            tracked_buffers: self.tracked_buffers@.map_values(|record: TrackedBuffer| record@),
            edited_since_project_diagnostics_check: self.edited_since_project_diagnostics_check,
        }
    }
}

impl ActionLog {
    /// Creates a new, empty action log.
    pub fn new() -> (log: Self)
        ensures
            log@ == ActionLogView::new(),
    {
        let log = ActionLog {
            stale_buffers_in_context: HashSet::new(),
            tracked_buffers: BTreeMap::new(),
            edited_since_project_diagnostics_check: false,
        };
        assert(log@.tracked_buffers =~= Map::empty());
        log
    }

    /// Notes that diagnostics have been checked.
    pub fn checked_project_diagnostics(&mut self)
        ensures
            final(self)@ == (ActionLogView {
                edited_since_project_diagnostics_check: false,
                ..old(self)@
            }),
    {
        self.edited_since_project_diagnostics_check = false;
    }

    /// Returns true if a buffer has been edited since diagnostics were last
    /// checked.
    pub fn has_edited_files_since_project_diagnostics_check(&self) -> (edited: bool)
        ensures
            edited == self@.edited_since_project_diagnostics_check,
    {
        self.edited_since_project_diagnostics_check
    }

    /// Stores `record` as the record of the buffer `id`.
    fn put(&mut self, id: u64, record: TrackedBuffer)
        ensures
            final(self)@ == old(self)@.with_record(id, record@),
    {
        self.tracked_buffers.insert(id, record);
        assert(self@.tracked_buffers =~= old(self)@.tracked_buffers.insert(id, record@));
    }

    /// Removes and returns the record of the buffer `id`, if there is one.
    fn take(&mut self, id: u64) -> (record: Option<TrackedBuffer>)
        ensures
            final(self)@ == old(self)@.without_record(id),
            match record {
                Some(record) => old(self)@.tracks(id) && record@ == old(self)@.tracked_buffers[id],
                None => !old(self)@.tracks(id),
            },
    {
        let record = self.tracked_buffers.remove(&id);
        assert(self@.tracked_buffers =~= old(self)@.tracked_buffers.remove(id));
        record
    }

    /// Takes the record of `buffer` out of the log, starting one if the buffer
    /// was not tracked, and notes the buffer's version in it.
    fn take_tracked(&mut self, buffer: &Buffer, created: bool) -> (record: TrackedBuffer)
        ensures
            record@ == old(self)@.track_buffer(*buffer, created).tracked_buffers[buffer.id],
            final(self)@ == old(self)@.without_record(buffer.id),
    {
        let mut record = match self.take(buffer.id) {
            Some(record) => record,
            None => TrackedBuffer::new(buffer, created),
        };
        record.version = buffer.version;
        record
    }

    /// Brings `buffer` under tracking if it is not, and notes its version.
    fn track_buffer(&mut self, buffer: &Buffer, created: bool)
        ensures
            final(self)@ == old(self)@.track_buffer(*buffer, created),
    {
        let record = self.take_tracked(buffer, created);
        self.put(buffer.id, record);
        assert(self@.tracked_buffers =~= old(self)@.track_buffer(*buffer, created).tracked_buffers);
    }

    /// Track a buffer as read, so that later changes to it are noticed.
    pub fn buffer_read(&mut self, buffer: &Buffer)
        ensures
            final(self)@ == old(self)@.track_buffer(*buffer, false),
    {
        self.track_buffer(buffer, false);
    }

    /// Track a buffer that the tool is creating, by the edit `edit_id` if the
    /// buffer gets content.
    pub fn will_create_buffer(&mut self, buffer: &Buffer, edit_id: Option<EditId>)
        ensures
            final(self)@ == old(self)@.will_create_buffer(*buffer, edit_id),
    {
        self.track_buffer(buffer, true);
        let mut edit_ids: Vec<EditId> = Vec::new();
        if let Some(id) = edit_id {
            edit_ids.push(id);
        }
        assert(edit_ids@.to_set() =~= option_edit_ids(edit_id)) by {
            if let Some(id) = edit_id {
                assert(edit_ids@[0] == id);
            }
        }
        self.buffer_edited(buffer, edit_ids);
    }

    /// Mark a buffer as edited by the tool through the edits `edit_ids`.
    pub fn buffer_edited(&mut self, buffer: &Buffer, edit_ids: Vec<EditId>)
        ensures
            final(self)@ == old(self)@.buffer_edited(*buffer, edit_ids@.to_set()),
    {
        self.edited_since_project_diagnostics_check = true;
        self.stale_buffers_in_context.insert(buffer.id);
        let TrackedBuffer { change, version, diff, diff_update } = self.take_tracked(buffer, false);
        let change = match change {
            Change::Edited { edit_ids: mut existing_edit_ids, initial_content } => {
                existing_edit_ids.extend(&edit_ids);
                Change::Edited { edit_ids: existing_edit_ids, initial_content }
            },
            Change::Deleted { deleted_content, deletion_id } => {
                // The tool has brought content back: the deletion is one of
                // the edits that await review.
                let mut all_edit_ids = EditIdSet::new();
                all_edit_ids.extend(&edit_ids);
                if let Some(id) = deletion_id {
                    all_edit_ids.insert(id);
                }
                assert(all_edit_ids@ =~= edit_ids@.to_set().union(option_edit_ids(deletion_id)));
                Change::Edited { edit_ids: all_edit_ids, initial_content: Some(deleted_content) }
            },
        };
        let mut record = TrackedBuffer { change, version, diff, diff_update };
        record.schedule_diff_update();
        self.put(buffer.id, record);
        assert(self@.tracked_buffers =~= old(self)@.buffer_edited(
            *buffer,
            edit_ids@.to_set(),
        ).tracked_buffers);
    }

    /// Track a buffer that the tool is deleting, and tell whether the tool
    /// has to empty it. Where the answer is yes, empty the buffer and report
    /// the edit that did it through [`ActionLog::buffer_cleared`].
    pub fn will_delete_buffer(&mut self, buffer: &Buffer) -> (clear: bool)
        ensures
            final(self)@ == old(self)@.will_delete_buffer(*buffer),
            clear == old(self)@.deletion_clears(*buffer),
    {
        let TrackedBuffer { change, version, diff, diff_update } = self.take_tracked(buffer, false);
        let clear = match change {
            Change::Edited { edit_ids: _, initial_content: Some(content) } => {
                let mut record = TrackedBuffer {
                    change: Change::Deleted { deleted_content: content, deletion_id: None },
                    version,
                    diff,
                    diff_update,
                };
                record.schedule_diff_update();
                self.put(buffer.id, record);
                true
            },
            Change::Edited { edit_ids: _, initial_content: None } => {
                // The tool made the buffer: nothing is left to review.
                false
            },
            Change::Deleted { deleted_content, deletion_id } => {
                self.put(
                    buffer.id,
                    TrackedBuffer {
                        change: Change::Deleted { deleted_content, deletion_id },
                        version,
                        diff,
                        diff_update,
                    },
                );
                false
            },
        };
        assert(self@.tracked_buffers =~= old(self)@.will_delete_buffer(*buffer).tracked_buffers);
        clear
    }

    /// Reports that the tool has emptied the buffer `id` after
    /// [`ActionLog::will_delete_buffer`] asked for it. `deletion_id` is the
    /// edit that emptied the buffer, or nothing if the buffer was empty.
    pub fn buffer_cleared(&mut self, id: u64, deletion_id: Option<EditId>)
        ensures
            final(self)@ == old(self)@.buffer_cleared(id, deletion_id),
    {
        match self.take(id) {
            Some(record) => {
                let TrackedBuffer { change, version, diff, diff_update } = record;
                match change {
                    Change::Deleted { deleted_content, deletion_id: _ } => {
                        let mut record = TrackedBuffer {
                            change: Change::Deleted { deleted_content, deletion_id },
                            version,
                            diff,
                            diff_update,
                        };
                        record.schedule_diff_update();
                        self.put(id, record);
                        assert(self@.tracked_buffers =~= old(self)@.buffer_cleared(
                            id,
                            deletion_id,
                        ).tracked_buffers);
                    },
                    Change::Edited { edit_ids, initial_content } => {
                        self.put(
                            id,
                            TrackedBuffer {
                                change: Change::Edited { edit_ids, initial_content },
                                version,
                                diff,
                                diff_update,
                            },
                        );
                        assert(self@.tracked_buffers =~= old(self)@.tracked_buffers);
                    },
                }
            },
            None => {
                assert(self@.tracked_buffers =~= old(self)@.tracked_buffers);
            },
        }
    }

    /// Whether a stretch of text that the edit `edit_id` touched in `buffer`
    /// meets `range`.
    fn edit_touches(buffer: &Buffer, edit_id: EditId, range: &Range<usize>) -> (touches: bool)
        ensures
            touches == buffer.edit_touches(edit_id, *range),
    {
        let edited = buffer.edited_ranges_for_edit_id(edit_id);
        let mut k: usize = 0;
        while k < edited.len()
            invariant
                k <= edited.len(),
                edited@ == buffer.spec_edited_ranges_for_edit_ids(set![edit_id]),
                forall|m: int| 0 <= m < k ==> !ranges_touch(*range, #[trigger] edited@[m]),
            decreases edited.len() - k,
        {
            if range.end >= edited[k].start && range.start <= edited[k].end {
                assert(ranges_touch(*range, edited@[k as int]));
                return true;
            }
            k += 1;
        }
        false
    }

    /// The edits of `edit_ids` that touch no text of `buffer` within `range`.
    fn edits_outside(buffer: &Buffer, edit_ids: &EditIdSet, range: &Range<usize>) -> (outside:
        EditIdSet)
        ensures
            outside@ == edit_ids@.filter(|id: EditId| !buffer.edit_touches(id, *range)),
    {
        let ids = edit_ids.to_vec();
        let mut outside = EditIdSet::new();
        let mut i: usize = 0;
        while i < ids.len()
            invariant
                i <= ids.len(),
                forall|id: EditId|
                    outside@.contains(id) <==> (exists|k: int|
                        0 <= k < i && ids@[k] == id) && !buffer.edit_touches(id, *range),
            decreases ids.len() - i,
        {
            if !Self::edit_touches(buffer, ids[i], range) {
                outside.insert(ids[i]);
            }
            i += 1;
        }
        assert(outside@ =~= edit_ids@.filter(|id: EditId| !buffer.edit_touches(id, *range))) by {
            assert forall|id: EditId| edit_ids@.contains(id) <==> (exists|k: int|
                0 <= k < ids@.len() && ids@[k] == id) by {
                assert(edit_ids@.contains(id) == ids@.contains(id));
            }
        }
        outside
    }

    /// Keeps the changes of `buffer` that lie in `buffer_range`: the user has
    /// reviewed them, and they no longer count as unreviewed.
    pub fn keep_edits_in_range(&mut self, buffer: &Buffer, buffer_range: Range<usize>)
        ensures
            final(self)@ == old(self)@.keep_edits_in_range(*buffer, buffer_range),
    {
        match self.take(buffer.id) {
            Some(record) => {
                let TrackedBuffer { change, version, diff, diff_update } = record;
                match change {
                    Change::Deleted { .. } => {},
                    Change::Edited { edit_ids, initial_content } => {
                        let edit_ids = Self::edits_outside(buffer, &edit_ids, &buffer_range);
                        let mut record = TrackedBuffer {
                            change: Change::Edited { edit_ids, initial_content },
                            version,
                            diff,
                            diff_update,
                        };
                        record.schedule_diff_update();
                        self.put(buffer.id, record);
                        assert(self@.tracked_buffers =~= old(self)@.keep_edits_in_range(
                            *buffer,
                            buffer_range,
                        ).tracked_buffers);
                    },
                }
            },
            None => {
                assert(self@.tracked_buffers =~= old(self)@.tracked_buffers);
            },
        }
    }

    /// Takes note of an operation that `buffer` has applied, whoever made it.
    pub fn handle_buffer_operation(&mut self, buffer: &Buffer, operation: &Operation)
        ensures
            final(self)@ == old(self)@.handle_buffer_operation(*buffer, *operation),
    {
        let edit = match operation {
            Operation::Buffer(TextOperation::Edit(edit)) => edit,
            _ => {
                return ;
            },
        };
        match self.take(buffer.id) {
            Some(record) => {
                let TrackedBuffer { change, version, diff, diff_update } = record;
                match change {
                    Change::Edited { mut edit_ids, initial_content } => {
                        // An edit that overlaps with tracked edits is unreviewed too.
                        let attributed = !edit_ids.contains(edit.timestamp) && {
                            let operation_edit_ranges = buffer.edited_ranges_for_edit_id(
                                edit.timestamp,
                            );
                            let tracked_edit_ranges = buffer.edited_ranges_for_edit_ids(&edit_ids);
                            ranges_intersect(&operation_edit_ranges, &tracked_edit_ranges)
                        };
                        let ghost known = edit_ids@;
                        if attributed {
                            edit_ids.insert(edit.timestamp);
                            assert(edit_ids@ =~= known.union(set![edit.timestamp]));
                        }
                        let mut record = TrackedBuffer {
                            change: Change::Edited { edit_ids, initial_content },
                            version,
                            diff,
                            diff_update,
                        };
                        if attributed {
                            record.schedule_diff_update();
                        }
                        self.put(buffer.id, record);
                    },
                    Change::Deleted { deleted_content, deletion_id } => {
                        self.put(
                            buffer.id,
                            TrackedBuffer {
                                change: Change::Deleted { deleted_content, deletion_id },
                                version,
                                diff,
                                diff_update,
                            },
                        );
                    },
                }
                assert(self@.tracked_buffers =~= old(self)@.handle_buffer_operation(
                    *buffer,
                    *operation,
                ).tracked_buffers);
            },
            None => {
                assert(self@.tracked_buffers =~= old(self)@.tracked_buffers);
            },
        }
    }

    /// Takes note that the file behind `buffer` has changed on disk.
    pub fn handle_buffer_file_changed(&mut self, buffer: &Buffer)
        ensures
            final(self)@ == old(self)@.handle_buffer_file_changed(*buffer),
    {
        let file_exists = match buffer.file {
            Some(DiskState::Deleted) => false,
            Some(_) => true,
            None => false,
        };
        let file_deleted = match buffer.file {
            Some(DiskState::Deleted) => true,
            _ => false,
        };
        match self.take(buffer.id) {
            Some(record) => {
                let TrackedBuffer { change, version, diff, diff_update } = record;
                match change {
                    Change::Deleted { deleted_content, deletion_id } => {
                        // A buffer that the tool deleted and that came back from
                        // elsewhere starts over.
                        let change = if file_exists {
                            Change::Edited {
                                edit_ids: EditIdSet::new(),
                                initial_content: Some(buffer.text.clone()),
                            }
                        } else {
                            Change::Deleted { deleted_content, deletion_id }
                        };
                        let mut record = TrackedBuffer { change, version, diff, diff_update };
                        record.schedule_diff_update();
                        self.put(buffer.id, record);
                    },
                    Change::Edited { edit_ids, initial_content } => {
                        // A buffer that the tool edited and that was deleted
                        // elsewhere is no longer tracked.
                        if !file_deleted {
                            let mut record = TrackedBuffer {
                                change: Change::Edited { edit_ids, initial_content },
                                version,
                                diff,
                                diff_update,
                            };
                            record.schedule_diff_update();
                            self.put(buffer.id, record);
                        }
                    },
                }
                assert(self@.tracked_buffers =~= old(self)@.handle_buffer_file_changed(
                    *buffer,
                ).tracked_buffers);
            },
            None => {
                assert(self@.tracked_buffers =~= old(self)@.tracked_buffers);
            },
        }
    }

    /// Takes note of an event that `buffer` has reported.
    pub fn handle_buffer_event(&mut self, buffer: &Buffer, event: &BufferEvent)
        ensures
            final(self)@ == old(self)@.handle_buffer_event(*buffer, *event),
    {
        match event {
            BufferEvent::Operation { operation, .. } => {
                self.handle_buffer_operation(buffer, operation)
            },
            BufferEvent::FileHandleChanged => {
                self.handle_buffer_file_changed(buffer);
            },
            _ => {},
        }
    }

    /// One turn of the task that keeps the diff of the buffer `id` up to
    /// date. The task ends with an error once the buffer has left tracking.
    /// While no recomputation has been asked for since the last turn there is
    /// nothing to do. Otherwise the request is taken up, however often it was
    /// made, and the instructions returned are those for the change as it
    /// stands now; hand their result to [`ActionLog::diff_updated`].
    pub fn maintain_diff(&mut self, id: u64) -> (step: Result<Option<DiffUpdate>, ActionLogError>)
        ensures
            match step {
                Err(error) => {
                    &&& !old(self)@.tracks(id)
                    &&& error == ActionLogError::BufferNotTracked
                    &&& final(self)@ == old(self)@
                },
                Ok(None) => {
                    &&& old(self)@.tracks(id)
                    &&& !old(self)@.diff_update_due(id)
                    &&& final(self)@ == old(self)@
                },
                Ok(Some(update)) => {
                    &&& old(self)@.diff_update_due(id)
                    &&& update.recomputes(old(self)@.tracked_buffers[id].change)
                    &&& final(self)@ == old(self)@.diff_update_taken(id)
                },
            },
    {
        match self.take(id) {
            Some(mut record) => {
                let step = if record.diff_update {
                    record.diff_update = false;
                    Some(record.update_diff())
                } else {
                    None
                };
                self.put(id, record);
                assert(self@.tracked_buffers =~= if old(self)@.diff_update_due(id) {
                    old(self)@.diff_update_taken(id).tracked_buffers
                } else {
                    old(self)@.tracked_buffers
                });
                Ok(step)
            },
            None => {
                assert(self@.tracked_buffers =~= old(self)@.tracked_buffers);
                Err(ActionLogError::BufferNotTracked)
            },
        }
    }

    /// Stores `diff` as the diff of the buffer `id`, as recomputed on the
    /// instructions of [`ActionLog::maintain_diff`].
    pub fn diff_updated(&mut self, id: u64, diff: BufferDiff)
        ensures
            final(self)@ == old(self)@.diff_updated(id, diff@),
    {
        match self.take(id) {
            Some(mut record) => {
                record.diff = diff;
                self.put(id, record);
                assert(self@.tracked_buffers =~= old(self)@.diff_updated(id, diff@).tracked_buffers);
            },
            None => {
                assert(self@.tracked_buffers =~= old(self)@.tracked_buffers);
            },
        }
    }

    /// Whether the buffer `id` is under tracking.
    pub fn is_tracked(&self, id: u64) -> (tracks: bool)
        ensures
            tracks == self@.tracks(id),
    {
        self.tracked_buffers.contains_key(&id)
    }

    /// The record of the buffer `id`, if the buffer is under tracking.
    pub fn tracked_buffer(&self, id: u64) -> (record: Option<&TrackedBuffer>)
        ensures
            match record {
                Some(record) => self@.tracks(id) && record@ == self@.tracked_buffers[id],
                None => !self@.tracks(id),
            },
    {
        self.tracked_buffers.get(&id)
    }

    /// Returns the buffers that contain changes that haven't been reviewed by
    /// the user, each with its diff.
    pub fn changed_buffers(&self) -> (changed: BTreeMap<u64, BufferDiff>)
        ensures
            changed@.map_values(|diff: BufferDiff| diff@) == self@.changed_buffers(),
    {
        let mut changed: BTreeMap<u64, BufferDiff> = BTreeMap::new();
        for entry in it: self.tracked_buffers.iter()
            invariant
                forall|id: u64|
                    changed@.contains_key(id) <==> (exists|k: int|
                        0 <= k < it.index() && *it.seq()[k].0 == id && (*it.seq()[k].1)@.has_changes()),
                forall|id: u64|
                    changed@.contains_key(id) ==> self.tracked_buffers@.contains_key(id)
                        && (#[trigger] changed@[id])@ == self.tracked_buffers@[id]@.diff,
        {
            if entry.1.has_changes() {
                changed.insert(*entry.0, entry.1.diff.clone());
            }
        }
        assert(changed@.map_values(|diff: BufferDiff| diff@) =~= self@.changed_buffers());
        changed
    }

    /// Takes and returns the buffers that the tool has edited since they were
    /// last taken.
    pub fn take_stale_buffers_in_context(&mut self) -> (stale: HashSet<u64>)
        ensures
            stale@ == old(self)@.stale_buffers_in_context,
            final(self)@ == (ActionLogView {
                stale_buffers_in_context: Set::empty(),
                ..old(self)@
            }),
    {
        let mut stale: HashSet<u64> = HashSet::new();
        std::mem::swap(&mut self.stale_buffers_in_context, &mut stale);
        stale
    }

    /// The buffers that have changed since the tool last read or edited them,
    /// in ascending order. `versions` gives the present version of each buffer
    /// that the caller knows of; a buffer that it leaves out is not reported.
    pub fn stale_buffers(&self, versions: &BTreeMap<u64, u64>) -> (stale: Vec<u64>)
        ensures
            forall|i: int, j: int| 0 <= i < j < stale@.len() ==> stale@[i] < stale@[j],
            forall|id: u64| stale@.contains(id) <==> self@.is_stale(versions@, id),
    {
        let mut stale: Vec<u64> = Vec::new();
        let ghost entries = vstd::std_specs::btree::spec_btree_map_iter(
            &self.tracked_buffers,
        ).remaining();
        // Where in `entries` each reported buffer was found.
        let ghost mut found: Seq<int> = Seq::empty();
        for entry in it: self.tracked_buffers.iter()
            invariant
                it.seq() == entries,
                vstd::std_specs::btree::increasing_seq(
                    entries.map_values(|kv: (&u64, &TrackedBuffer)| *kv.0),
                ),
                forall|k: int|
                    0 <= k < entries.len() ==> self.tracked_buffers@.contains_key(
                        *(#[trigger] entries[k]).0,
                    ) && self.tracked_buffers@[*entries[k].0] == *entries[k].1,
                forall|i: int, j: int| 0 <= i < j < stale@.len() ==> stale@[i] < stale@[j],
                found.len() == stale@.len(),
                forall|i: int|
                    0 <= i < stale@.len() ==> 0 <= #[trigger] found[i] < it.index()
                        && *entries[found[i]].0 == stale@[i],
                forall|k: int|
                    0 <= k < it.index() ==> (stale@.contains(*(#[trigger] entries[k]).0)
                        <==> self@.is_stale(versions@, *entries[k].0)),
        {
            let ghost index = it.index();
            let ghost keys = entries.map_values(|kv: (&u64, &TrackedBuffer)| *kv.0);
            let ghost before = stale@;
            let current = versions.get(entry.0);
            let is_stale = match current {
                Some(version) => *version != entry.1.version,
                None => false,
            };
            proof {
                assert(entry == entries[index]);
                assert(is_stale == self@.is_stale(versions@, *entry.0));
                assert forall|i: int| 0 <= i < before.len() implies before[i] < *entry.0 by {
                    let k = found[i];
                    assert(keys[k] == before[i]);
                    assert(keys[index] == *entry.0);
                    lemma_increasing_keys_ascend(keys, k, index);
                }
            }
            if is_stale {
                stale.push(*entry.0);
                proof {
                    found = found.push(index);
                }
                assert(stale@[before.len() as int] == *entry.0);
            }
            proof {
                assert forall|k: int| 0 <= k < index + 1 implies (stale@.contains(
                    *(#[trigger] entries[k]).0,
                ) <==> self@.is_stale(versions@, *entries[k].0)) by {
                    let key = *entries[k].0;
                    if k < index {
                        if before.contains(key) {
                            let i = choose|i: int| 0 <= i < before.len() && before[i] == key;
                            assert(stale@[i] == key);
                        }
                        if stale@.contains(key) && !before.contains(key) {
                            assert(keys[k] == key);
                            assert(keys[index] == *entry.0);
                            lemma_increasing_keys_ascend(keys, k, index);
                        }
                    } else {
                        if stale@.contains(key) && !is_stale {
                            let i = choose|i: int| 0 <= i < stale@.len() && stale@[i] == key;
                            assert(before[i] < *entry.0);
                        }
                    }
                }
            }
        }
        proof {
            assert forall|id: u64| stale@.contains(id) <==> self@.is_stale(versions@, id) by {
                if stale@.contains(id) {
                    let i = choose|i: int| 0 <= i < stale@.len() && stale@[i] == id;
                    let k = found[i];
                    assert(stale@.contains(*entries[k].0));
                }
                if self@.is_stale(versions@, id) {
                    assert(self.tracked_buffers@.contains_key(id));
                    let pair = (&id, &self.tracked_buffers@[id]);
                    assert(entries.contains(pair));
                    let k = choose|k: int| 0 <= k < entries.len() && entries[k] == pair;
                    assert(*entries[k].0 == id);
                }
            }
        }
        stale
    }
}

} // verus!
