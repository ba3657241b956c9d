//! What holds of the action log across calls.

use crate::action_log::option_edit_ids;
use crate::action_log::ActionLogView;
use crate::buffer::lemma_ranges_of_edits_complete;
use crate::buffer::lemma_ranges_of_edits_origin;
use crate::buffer::ranges_of_edits;
use crate::buffer::Buffer;
use crate::buffer::BufferEvent;
use crate::buffer::Operation;
use crate::clock::EditId;
use crate::diff::DiffHunkView;
use crate::diff::DiffUpdate;
use crate::ranges::any_touch;
use crate::ranges::lemma_ranges_intersect_finds_touch;
use crate::ranges::ranges_touch;
use crate::tracked_buffer::ChangeView;
use std::ops::Range;
use vstd::prelude::*;

verus! {

/// Whether the buffer `id` has the same record, or none, in both logs.
pub open spec fn same_record(before: ActionLogView, after: ActionLogView, id: u64) -> bool {
    &&& after.tracks(id) == before.tracks(id)
    &&& before.tracks(id) ==> after.tracked_buffers[id] == before.tracked_buffers[id]
}

/// In a buffer that lists its edited ranges by ascending start, an edit is
/// found to run into a set of edits exactly when a stretch of text that it
/// touched meets, as a closed interval, a stretch that one of them touched.
pub proof fn lemma_overlap_means_touch(buffer: Buffer, edit_id: EditId, edit_ids: Set<EditId>)
    requires
        buffer.lists_ranges_in_order(),
    ensures
        buffer.edit_overlaps(edit_id, edit_ids) == any_touch(
            buffer.spec_edited_ranges_for_edit_ids(set![edit_id]),
            buffer.spec_edited_ranges_for_edit_ids(edit_ids),
        ),
{
    buffer.lemma_resolves_in_order(set![edit_id]);
    buffer.lemma_resolves_in_order(edit_ids);
    lemma_ranges_intersect_finds_touch(
        buffer.spec_edited_ranges_for_edit_ids(set![edit_id]),
        buffer.spec_edited_ranges_for_edit_ids(edit_ids),
    );
}

/// An edit touches a range exactly when the buffer lists, under the edit's
/// identifier, a stretch of text that meets the range as a closed interval.
pub proof fn lemma_edit_touches_listed_range(buffer: Buffer, edit_id: EditId, range: Range<usize>)
    ensures
        buffer.edit_touches(edit_id, range) <==> exists|i: int|
            0 <= i < buffer.edited_ranges@.len() && (#[trigger] buffer.edited_ranges@[i]).edit_id
                == edit_id && ranges_touch(range, buffer.edited_ranges@[i].range),
{
    let edits = buffer.edited_ranges@;
    let ids = set![edit_id];
    let edited = ranges_of_edits(edits, ids);
    if buffer.edit_touches(edit_id, range) {
        let k = choose|k: int| 0 <= k < edited.len() && ranges_touch(range, #[trigger] edited[k]);
        lemma_ranges_of_edits_origin(edits, ids, k);
        let i = choose|i: int|
            0 <= i < edits.len() && ids.contains(#[trigger] edits[i].edit_id) && edits[i].range
                == edited[k];
        assert(edits[i].edit_id == edit_id && ranges_touch(range, edits[i].range));
    }
    if exists|i: int|
        0 <= i < edits.len() && (#[trigger] edits[i]).edit_id == edit_id && ranges_touch(
            range,
            edits[i].range,
        ) {
        let i = choose|i: int|
            0 <= i < edits.len() && (#[trigger] edits[i]).edit_id == edit_id && ranges_touch(
                range,
                edits[i].range,
            );
        lemma_ranges_of_edits_complete(edits, ids, i);
        let k = choose|k: int| 0 <= k < edited.len() && edited[k] == edits[i].range;
        let resolved = buffer.spec_edited_ranges_for_edit_ids(set![edit_id]);
        assert(resolved == edited);
        assert(0 <= k < resolved.len() && ranges_touch(range, resolved[k]));
    }
}

/// What the tool reads, edits or creates is under tracking afterwards, at the
/// version it was seen at.
pub proof fn lemma_recording_tracks(
    log: ActionLogView,
    buffer: Buffer,
    edit_ids: Set<EditId>,
    edit_id: Option<EditId>,
)
    ensures
        log.track_buffer(buffer, false).tracks(buffer.id),
        log.track_buffer(buffer, false).tracked_buffers[buffer.id].version == buffer.version,
        log.buffer_edited(buffer, edit_ids).tracks(buffer.id),
        log.buffer_edited(buffer, edit_ids).tracked_buffers[buffer.id].version == buffer.version,
        log.buffer_edited(buffer, edit_ids).tracked_buffers[buffer.id].change is Edited,
        edit_ids.subset_of(
            log.buffer_edited(buffer, edit_ids).tracked_buffers[buffer.id].change.edit_ids(),
        ),
        log.will_create_buffer(buffer, edit_id).tracks(buffer.id),
        log.will_create_buffer(buffer, edit_id).tracked_buffers[buffer.id].change is Edited,
        !log.tracks(buffer.id) ==> log.will_create_buffer(
            buffer,
            edit_id,
        ).tracked_buffers[buffer.id].change == (ChangeView::Edited {
            edit_ids: option_edit_ids(edit_id),
            initial_content: None,
        }),
{
    if !log.tracks(buffer.id) {
        let created = log.will_create_buffer(buffer, edit_id).tracked_buffers[buffer.id].change;
        assert(created.edit_ids() =~= option_edit_ids(edit_id));
    }
}

/// Whatever happens to one buffer leaves the records of all others as they
/// were.
pub proof fn lemma_other_buffers_untouched(
    log: ActionLogView,
    buffer: Buffer,
    other: u64,
    edit_ids: Set<EditId>,
    deletion_id: Option<EditId>,
    range: Range<usize>,
    event: BufferEvent,
    diff: Seq<DiffHunkView>,
)
    requires
        other != buffer.id,
    ensures
        same_record(log, log.track_buffer(buffer, false), other),
        same_record(log, log.buffer_edited(buffer, edit_ids), other),
        same_record(log, log.will_create_buffer(buffer, deletion_id), other),
        same_record(log, log.will_delete_buffer(buffer), other),
        same_record(log, log.buffer_cleared(buffer.id, deletion_id), other),
        same_record(log, log.keep_edits_in_range(buffer, range), other),
        same_record(log, log.handle_buffer_event(buffer, event), other),
        same_record(log, log.diff_update_taken(buffer.id), other),
        same_record(log, log.diff_updated(buffer.id, diff), other),
{
}

/// Requests to recompute a diff do not queue: however many were made, taking
/// the request up once leaves none, and nothing else of the record changes.
pub proof fn lemma_requests_coalesce(log: ActionLogView, id: u64)
    requires
        log.tracks(id),
    ensures
        log.tracked_buffers[id].scheduled().scheduled() == log.tracked_buffers[id].scheduled(),
        !log.diff_update_taken(id).diff_update_due(id),
        log.diff_update_taken(id).tracked_buffers[id].change == log.tracked_buffers[id].change,
        log.diff_update_taken(id).tracked_buffers[id].diff == log.tracked_buffers[id].diff,
        log.diff_update_taken(id).tracked_buffers[id].version == log.tracked_buffers[id].version,
{
}

/// Recording the same edits of the tool a second time changes nothing:
/// neither the edits that await review nor anything else in the log.
pub proof fn lemma_buffer_edited_idempotent(log: ActionLogView, buffer: Buffer, edit_ids: Set<EditId>)
    ensures
        log.buffer_edited(buffer, edit_ids).buffer_edited(buffer, edit_ids) == log.buffer_edited(
            buffer,
            edit_ids,
        ),
{
    let once = log.buffer_edited(buffer, edit_ids);
    let twice = once.buffer_edited(buffer, edit_ids);
    assert(once.tracks(buffer.id));
    assert(once.tracked_buffers[buffer.id].change is Edited);
    assert(twice.tracked_buffers[buffer.id].change.edit_ids() =~= once.tracked_buffers[buffer.id].change.edit_ids());
    assert(twice.tracked_buffers =~= once.tracked_buffers);
    assert(twice.stale_buffers_in_context =~= once.stale_buffers_in_context);
}

/// Observing the same operation of a buffer a second time changes nothing.
pub proof fn lemma_handle_buffer_operation_idempotent(
    log: ActionLogView,
    buffer: Buffer,
    operation: Operation,
)
    ensures
        log.handle_buffer_operation(buffer, operation).handle_buffer_operation(buffer, operation)
            == log.handle_buffer_operation(buffer, operation),
{
    let once = log.handle_buffer_operation(buffer, operation);
    let twice = once.handle_buffer_operation(buffer, operation);
    assert(twice.tracked_buffers =~= once.tracked_buffers);
}

/// An edit that the tool has recorded is passed over when the buffer
/// announces it: the log stays as it is.
pub proof fn lemma_recorded_edit_not_attributed_again(
    log: ActionLogView,
    buffer: Buffer,
    edit_ids: Set<EditId>,
    operation: Operation,
)
    requires
        operation matches Operation::Buffer(crate::buffer::TextOperation::Edit(edit))
            && edit_ids.contains(edit.timestamp),
    ensures
        log.buffer_edited(buffer, edit_ids).handle_buffer_operation(buffer, operation)
            == log.buffer_edited(buffer, edit_ids),
{
}

/// Keeping a range never adds to what awaits review: a buffer that is
/// tracked afterwards was tracked before, and every edit of it that awaits
/// review afterwards did so before.
pub proof fn lemma_keep_edits_only_shrinks(
    log: ActionLogView,
    buffer: Buffer,
    range: Range<usize>,
    id: u64,
)
    requires
        log.keep_edits_in_range(buffer, range).tracks(id),
    ensures
        log.tracks(id),
        log.keep_edits_in_range(buffer, range).tracked_buffers[id].change.edit_ids().subset_of(
            log.tracked_buffers[id].change.edit_ids(),
        ),
{
}

/// Keeping a range leaves every edit that touches no text within it awaiting
/// review, and takes out every edit that does.
pub proof fn lemma_keep_edits_takes_touching(
    log: ActionLogView,
    buffer: Buffer,
    range: Range<usize>,
    edit_id: EditId,
)
    requires
        log.tracks(buffer.id),
        log.tracked_buffers[buffer.id].change is Edited,
    ensures
        log.keep_edits_in_range(buffer, range).tracked_buffers[buffer.id].change.edit_ids().contains(
            edit_id,
        ) <==> log.tracked_buffers[buffer.id].change.edit_ids().contains(edit_id)
            && !buffer.edit_touches(edit_id, range),
{
}

/// A buffer that the tool deleted and that comes back on disk with whatever
/// content starts over: the content found is its baseline, no edit awaits
/// review, and the diff is to be recomputed by undoing nothing.
pub proof fn lemma_deleted_then_restored_starts_over(
    log: ActionLogView,
    buffer: Buffer,
    deletion_id: Option<EditId>,
    restored: Buffer,
    update: DiffUpdate,
)
    requires
        log.deletion_clears(buffer),
        restored.id == buffer.id,
        restored.file_exists(),
        update.recomputes(
            log.will_delete_buffer(buffer).buffer_cleared(
                buffer.id,
                deletion_id,
            ).handle_buffer_file_changed(restored).tracked_buffers[buffer.id].change,
        ),
    ensures
        ({
            let deleted = log.will_delete_buffer(buffer).buffer_cleared(buffer.id, deletion_id);
            let after = deleted.handle_buffer_file_changed(restored);
            &&& deleted.tracks(buffer.id)
            &&& deleted.tracked_buffers[buffer.id].change is Deleted
            &&& after.tracks(buffer.id)
            &&& after.tracked_buffers[buffer.id].change == (ChangeView::Edited {
                edit_ids: Set::<EditId>::empty(),
                initial_content: Some(restored.text@),
            })
            &&& after.diff_update_due(buffer.id)
            &&& update matches DiffUpdate::Edited { edits_to_undo, .. } && edits_to_undo@.len() == 0
        }),
{
    let deleted = log.will_delete_buffer(buffer).buffer_cleared(buffer.id, deletion_id);
    let after = deleted.handle_buffer_file_changed(restored);
    match update {
        DiffUpdate::Edited { edits_to_undo, .. } => {
            let named = crate::diff::edits_named(edits_to_undo@);
            if named.len() > 0 {
                assert(named.to_set().contains(named[0]));
            }
        },
        DiffUpdate::Deleted { .. } => {},
    }
}

} // verus!
