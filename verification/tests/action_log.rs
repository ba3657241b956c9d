use action_log::action_log::ActionLog;
use action_log::action_log::ActionLogError;
use action_log::buffer::Buffer;
use action_log::buffer::BufferEvent;
use action_log::buffer::DiskState;
use action_log::buffer::EditOperation;
use action_log::buffer::EditedRange;
use action_log::buffer::Operation;
use action_log::buffer::TextOperation;
use action_log::clock::EditId;
use action_log::diff::BufferDiff;
use action_log::diff::DiffHunk;
use action_log::diff::DiffHunkStatusKind;
use action_log::diff::DiffUpdate;
use action_log::point::Point;
use action_log::tracked_buffer::Change;
use std::collections::BTreeMap;
use std::ops::Range;

// A small text buffer that stands in for the real one: it files every edit
// under an identifier, remembers what each edit inserted and removed, and can
// show its text with chosen edits undone.

struct Fragment {
    text: String,
    inserted_by: Option<EditId>,
    deleted_by: Vec<EditId>,
}

struct TextBuffer {
    id: u64,
    clock: u32,
    version: u64,
    file: Option<DiskState>,
    fragments: Vec<Fragment>,
}

impl TextBuffer {
    fn new(id: u64, text: &str) -> Self {
        TextBuffer {
            id,
            clock: 0,
            version: 0,
            file: None,
            fragments: vec![Fragment {
                text: text.to_string(),
                inserted_by: None,
                deleted_by: Vec::new(),
            }],
        }
    }

    fn text_without(&self, undone: &[EditId]) -> String {
        let mut text = String::new();
        for fragment in &self.fragments {
            let inserted = match fragment.inserted_by {
                Some(id) => !undone.contains(&id),
                None => true,
            };
            let deleted = fragment.deleted_by.iter().any(|id| !undone.contains(id));
            if inserted && !deleted {
                text.push_str(&fragment.text);
            }
        }
        text
    }

    fn text(&self) -> String {
        self.text_without(&[])
    }

    fn offset(&self, point: Point) -> usize {
        let text = self.text();
        let mut offset = 0;
        for (row, line) in text.split('\n').enumerate() {
            if row as u32 == point.row {
                return offset + point.column as usize;
            }
            offset += line.len() + 1;
        }
        text.len()
    }

    fn edit(&mut self, range: Range<usize>, new_text: &str) -> Option<EditId> {
        if range.start == range.end && new_text.is_empty() {
            return None;
        }
        self.clock += 1;
        self.version += 1;
        let id = EditId { replica_id: self.id as u16, value: self.clock };
        let mut fragments = Vec::new();
        let mut inserted = new_text.is_empty();
        let mut offset = 0;
        for fragment in std::mem::take(&mut self.fragments) {
            let visible = fragment.deleted_by.is_empty();
            if !visible {
                if !inserted && offset >= range.start {
                    fragments.push(Fragment {
                        text: new_text.to_string(),
                        inserted_by: Some(id),
                        deleted_by: Vec::new(),
                    });
                    inserted = true;
                }
                fragments.push(fragment);
                continue;
            }
            let start = offset;
            let end = offset + fragment.text.len();
            let cut_start = range.start.clamp(start, end) - start;
            let cut_end = range.end.clamp(start, end) - start;
            if cut_start > 0 {
                fragments.push(Fragment {
                    text: fragment.text[..cut_start].to_string(),
                    inserted_by: fragment.inserted_by,
                    deleted_by: Vec::new(),
                });
            }
            if !inserted && range.start <= end {
                fragments.push(Fragment {
                    text: new_text.to_string(),
                    inserted_by: Some(id),
                    deleted_by: Vec::new(),
                });
                inserted = true;
            }
            if cut_end > cut_start {
                fragments.push(Fragment {
                    text: fragment.text[cut_start..cut_end].to_string(),
                    inserted_by: fragment.inserted_by,
                    deleted_by: vec![id],
                });
            }
            if cut_end < fragment.text.len() {
                fragments.push(Fragment {
                    text: fragment.text[cut_end..].to_string(),
                    inserted_by: fragment.inserted_by,
                    deleted_by: Vec::new(),
                });
            }
            offset = end;
        }
        if !inserted {
            fragments.push(Fragment {
                text: new_text.to_string(),
                inserted_by: Some(id),
                deleted_by: Vec::new(),
            });
        }
        self.fragments = fragments;
        Some(id)
    }

    fn edit_points(&mut self, range: Range<Point>, new_text: &str) -> Option<EditId> {
        let range = self.offset(range.start)..self.offset(range.end);
        self.edit(range, new_text)
    }

    fn set_text(&mut self, text: &str) -> Option<EditId> {
        let len = self.text().len();
        self.edit(0..len, text)
    }

    fn edited_ranges(&self) -> Vec<EditedRange> {
        let mut ranges = Vec::new();
        let mut offset = 0;
        for fragment in &self.fragments {
            let len = if fragment.deleted_by.is_empty() { fragment.text.len() } else { 0 };
            if let Some(id) = fragment.inserted_by {
                ranges.push(EditedRange { edit_id: id, range: offset..offset + len });
            }
            for id in &fragment.deleted_by {
                ranges.push(EditedRange { edit_id: *id, range: offset..offset + len });
            }
            offset += len;
        }
        ranges
    }

    fn snapshot(&self) -> Buffer {
        Buffer {
            id: self.id,
            text: self.text(),
            version: self.version,
            file: self.file,
            edited_ranges: self.edited_ranges(),
        }
    }
}

// A line diff that stands in for the real one.

fn lines(text: &str) -> Vec<&str> {
    text.split_inclusive('\n').collect()
}

fn end_of(new: &[&str]) -> Point {
    match new.last() {
        None => Point::new(0, 0),
        Some(last) if last.ends_with('\n') => Point::new(new.len() as u32, 0),
        Some(last) => Point::new(new.len() as u32 - 1, last.len() as u32),
    }
}

fn line_diff(base: &str, current: &str) -> BufferDiff {
    let old = lines(base);
    let new = lines(current);
    let mut common = vec![vec![0usize; new.len() + 1]; old.len() + 1];
    for i in (0..old.len()).rev() {
        for j in (0..new.len()).rev() {
            common[i][j] = if old[i] == new[j] {
                common[i + 1][j + 1] + 1
            } else {
                common[i + 1][j].max(common[i][j + 1])
            };
        }
    }
    let mut hunks = Vec::new();
    let (mut i, mut j) = (0, 0);
    while i < old.len() || j < new.len() {
        if i < old.len() && j < new.len() && old[i] == new[j] {
            i += 1;
            j += 1;
            continue;
        }
        let (old_start, new_start) = (i, j);
        while (i < old.len() || j < new.len())
            && !(i < old.len() && j < new.len() && old[i] == new[j])
        {
            if j == new.len() || (i < old.len() && common[i + 1][j] >= common[i][j + 1]) {
                i += 1;
            } else {
                j += 1;
            }
        }
        let start = Point::new(new_start as u32, 0);
        let end = if j < new.len() { Point::new(j as u32, 0) } else { end_of(&new) };
        let start = if new_start == new.len() { end } else { start };
        hunks.push(DiffHunk {
            range: start..end,
            status: if old_start == i {
                DiffHunkStatusKind::Added
            } else if new_start == j {
                DiffHunkStatusKind::Deleted
            } else {
                DiffHunkStatusKind::Modified
            },
            old_text: old[old_start..i].concat(),
        });
    }
    BufferDiff { hunks }
}

// What the surroundings of the log do: deliver events, and run the task that
// keeps the diff of each buffer up to date until nothing is left to do.

fn edit_event(id: EditId) -> BufferEvent {
    BufferEvent::Operation {
        operation: Operation::Buffer(TextOperation::Edit(EditOperation { timestamp: id })),
        is_local: true,
    }
}

fn run_until_parked(log: &mut ActionLog, buffers: &[&TextBuffer]) {
    for buffer in buffers {
        while let Ok(Some(update)) = log.maintain_diff(buffer.id) {
            let base = match update {
                DiffUpdate::Edited { edits_to_undo, .. } => {
                    let undone: Vec<EditId> = edits_to_undo
                        .iter()
                        .map(|entry| {
                            assert_eq!(entry.1, u32::MAX);
                            entry.0
                        })
                        .collect();
                    buffer.text_without(&undone)
                }
                DiffUpdate::Deleted { base_text } => base_text,
            };
            log.diff_updated(buffer.id, line_diff(&base, &buffer.text()));
        }
    }
}

#[derive(Debug, Clone, PartialEq, Eq)]
struct HunkStatus {
    range: Range<Point>,
    diff_status: DiffHunkStatusKind,
    old_text: String,
}

fn unreviewed_hunks(log: &ActionLog) -> Vec<(u64, Vec<HunkStatus>)> {
    log.changed_buffers()
        .into_iter()
        .map(|(buffer, diff)| {
            (
                buffer,
                diff.hunks
                    .iter()
                    .map(|hunk| HunkStatus {
                        diff_status: hunk.status,
                        range: hunk.range.clone(),
                        old_text: hunk.old_text.clone(),
                    })
                    .collect(),
            )
        })
        .collect()
}

fn edit_ids_of(log: &ActionLog, id: u64) -> Vec<EditId> {
    match &log.tracked_buffer(id).unwrap().change {
        Change::Edited { edit_ids, .. } => {
            let mut ids = edit_ids.to_vec();
            ids.sort_by_key(|id| (id.replica_id, id.value));
            ids
        }
        Change::Deleted { .. } => panic!("the buffer counts as deleted"),
    }
}

#[test]
fn test_edit_review() {
    let mut log = ActionLog::new();
    let mut buffer = TextBuffer::new(1, "abc\ndef\nghi\njkl\nmno");

    let edit1 = buffer.edit_points(Point::new(1, 1)..Point::new(1, 2), "E").unwrap();
    let edit2 = buffer.edit_points(Point::new(4, 2)..Point::new(4, 3), "O").unwrap();
    assert_eq!(buffer.text(), "abc\ndEf\nghi\njkl\nmnO");

    log.buffer_edited(&buffer.snapshot(), vec![edit1, edit2]);
    run_until_parked(&mut log, &[&buffer]);
    assert_eq!(
        unreviewed_hunks(&log),
        vec![(
            1,
            vec![
                HunkStatus {
                    range: Point::new(1, 0)..Point::new(2, 0),
                    diff_status: DiffHunkStatusKind::Modified,
                    old_text: "def\n".into(),
                },
                HunkStatus {
                    range: Point::new(4, 0)..Point::new(4, 3),
                    diff_status: DiffHunkStatusKind::Modified,
                    old_text: "mno".into(),
                }
            ],
        )]
    );

    let range = buffer.offset(Point::new(3, 0))..buffer.offset(Point::new(4, 3));
    log.keep_edits_in_range(&buffer.snapshot(), range);
    run_until_parked(&mut log, &[&buffer]);
    assert_eq!(
        unreviewed_hunks(&log),
        vec![(
            1,
            vec![HunkStatus {
                range: Point::new(1, 0)..Point::new(2, 0),
                diff_status: DiffHunkStatusKind::Modified,
                old_text: "def\n".into(),
            }],
        )]
    );
    assert_eq!(edit_ids_of(&log, 1), vec![edit1]);

    let range = buffer.offset(Point::new(0, 0))..buffer.offset(Point::new(4, 3));
    log.keep_edits_in_range(&buffer.snapshot(), range);
    run_until_parked(&mut log, &[&buffer]);
    assert_eq!(unreviewed_hunks(&log), vec![]);
    assert!(log.tracked_buffer(1).unwrap().diff.hunks.is_empty());
    assert_eq!(edit_ids_of(&log, 1), vec![]);
}

#[test]
fn test_overlapping_user_edits() {
    let mut log = ActionLog::new();
    let mut buffer = TextBuffer::new(1, "abc\ndef\nghi\njkl\nmno");

    let tool_edit = buffer
        .edit_points(Point::new(0, 2)..Point::new(2, 3), "C\nDEF\nGHI")
        .unwrap();
    assert_eq!(buffer.text(), "abC\nDEF\nGHI\njkl\nmno");

    log.buffer_edited(&buffer.snapshot(), vec![tool_edit]);
    run_until_parked(&mut log, &[&buffer]);
    assert_eq!(
        unreviewed_hunks(&log),
        vec![(
            1,
            vec![HunkStatus {
                range: Point::new(0, 0)..Point::new(3, 0),
                diff_status: DiffHunkStatusKind::Modified,
                old_text: "abc\ndef\nghi\n".into(),
            }],
        )]
    );

    let user_edit = buffer.edit_points(Point::new(0, 2)..Point::new(0, 2), "X").unwrap();
    log.handle_buffer_event(&buffer.snapshot(), &edit_event(user_edit));
    run_until_parked(&mut log, &[&buffer]);
    assert_eq!(edit_ids_of(&log, 1), vec![tool_edit, user_edit]);
    // The user's edit lies in text that the tool wrote, so it awaits review
    // beside the tool's edit. The diff is taken against the buffer with every
    // edit that awaits review undone, the user's among them: the old text is
    // the text from before both edits, without the character that the user
    // put in.
    assert_eq!(buffer.text(), "abXC\nDEF\nGHI\njkl\nmno");
    assert_eq!(buffer.text_without(&[tool_edit, user_edit]), "abc\ndef\nghi\njkl\nmno");
    assert_eq!(
        unreviewed_hunks(&log),
        vec![(
            1,
            vec![HunkStatus {
                range: Point::new(0, 0)..Point::new(3, 0),
                diff_status: DiffHunkStatusKind::Modified,
                old_text: "abc\ndef\nghi\n".into(),
            }],
        )]
    );

    let range = buffer.offset(Point::new(0, 0))..buffer.offset(Point::new(1, 0));
    log.keep_edits_in_range(&buffer.snapshot(), range);
    run_until_parked(&mut log, &[&buffer]);
    assert_eq!(unreviewed_hunks(&log), vec![]);
    assert_eq!(edit_ids_of(&log, 1), vec![]);
}

#[test]
fn test_deletion() {
    let mut log = ActionLog::new();
    let mut buffer1 = TextBuffer::new(1, "lorem\n");
    let mut buffer2 = TextBuffer::new(2, "ipsum\n");
    buffer1.file = Some(DiskState::Present);
    buffer2.file = Some(DiskState::Present);

    for buffer in [&mut buffer1, &mut buffer2] {
        assert!(log.will_delete_buffer(&buffer.snapshot()));
        let deletion_id = buffer.set_text("");
        log.buffer_cleared(buffer.id, deletion_id);
        log.handle_buffer_event(&buffer.snapshot(), &edit_event(deletion_id.unwrap()));
        buffer.file = Some(DiskState::Deleted);
        log.handle_buffer_event(&buffer.snapshot(), &BufferEvent::FileHandleChanged);
    }
    run_until_parked(&mut log, &[&buffer1, &buffer2]);
    assert_eq!(
        unreviewed_hunks(&log),
        vec![
            (
                1,
                vec![HunkStatus {
                    range: Point::new(0, 0)..Point::new(0, 0),
                    diff_status: DiffHunkStatusKind::Deleted,
                    old_text: "lorem\n".into(),
                }]
            ),
            (
                2,
                vec![HunkStatus {
                    range: Point::new(0, 0)..Point::new(0, 0),
                    diff_status: DiffHunkStatusKind::Deleted,
                    old_text: "ipsum\n".into(),
                }],
            )
        ]
    );

    // The first file is recreated from elsewhere.
    let reload = buffer1.set_text("LOREM").unwrap();
    buffer1.file = Some(DiskState::Present);
    log.handle_buffer_event(&buffer1.snapshot(), &edit_event(reload));
    log.handle_buffer_event(&buffer1.snapshot(), &BufferEvent::FileHandleChanged);
    run_until_parked(&mut log, &[&buffer1, &buffer2]);
    match &log.tracked_buffer(1).unwrap().change {
        Change::Edited { edit_ids, initial_content } => {
            assert!(edit_ids.is_empty());
            assert_eq!(initial_content.as_deref(), Some("LOREM"));
        }
        Change::Deleted { .. } => panic!("the buffer still counts as deleted"),
    }

    // The second file is recreated by the tool.
    let edit_id = buffer2.set_text("IPSUM");
    log.will_create_buffer(&buffer2.snapshot(), edit_id);
    log.handle_buffer_event(&buffer2.snapshot(), &edit_event(edit_id.unwrap()));
    buffer2.file = Some(DiskState::Present);
    log.handle_buffer_event(&buffer2.snapshot(), &BufferEvent::FileHandleChanged);
    run_until_parked(&mut log, &[&buffer1, &buffer2]);
    assert_eq!(
        unreviewed_hunks(&log),
        vec![(
            2,
            vec![HunkStatus {
                range: Point::new(0, 0)..Point::new(0, 5),
                diff_status: DiffHunkStatusKind::Modified,
                old_text: "ipsum\n".into(),
            }],
        )]
    );

    // The second file is deleted from elsewhere.
    buffer2.file = Some(DiskState::Deleted);
    log.handle_buffer_event(&buffer2.snapshot(), &BufferEvent::FileHandleChanged);
    run_until_parked(&mut log, &[&buffer1]);
    assert_eq!(unreviewed_hunks(&log), vec![]);
    assert!(!log.is_tracked(2));
    assert_eq!(log.maintain_diff(2).unwrap_err(), ActionLogError::BufferNotTracked);
}

fn plain_buffer(id: u64, text: &str, version: u64) -> Buffer {
    Buffer { id, text: text.to_string(), version, file: None, edited_ranges: Vec::new() }
}

fn id(value: u32) -> EditId {
    EditId { replica_id: 0, value }
}

#[test]
fn new_log_tracks_nothing() {
    let mut log = ActionLog::new();
    assert!(!log.has_edited_files_since_project_diagnostics_check());
    assert!(!log.is_tracked(1));
    assert!(log.tracked_buffer(1).is_none());
    assert!(log.changed_buffers().is_empty());
    assert!(log.stale_buffers(&BTreeMap::new()).is_empty());
    assert!(log.take_stale_buffers_in_context().is_empty());
    assert_eq!(log.maintain_diff(1).unwrap_err(), ActionLogError::BufferNotTracked);
}

#[test]
fn reading_tracks_without_marking_edited() {
    let mut log = ActionLog::new();
    log.buffer_read(&plain_buffer(7, "text", 3));
    assert!(log.is_tracked(7));
    assert!(!log.has_edited_files_since_project_diagnostics_check());
    assert!(log.take_stale_buffers_in_context().is_empty());
    let record = log.tracked_buffer(7).unwrap();
    assert_eq!(record.version, 3);
    assert!(!record.diff_update);
    assert!(!record.has_changes());
    match &record.change {
        Change::Edited { edit_ids, initial_content } => {
            assert!(edit_ids.is_empty());
            assert_eq!(edit_ids.len(), 0);
            assert_eq!(initial_content.as_deref(), Some("text"));
        }
        Change::Deleted { .. } => panic!("a buffer that was read is not deleted"),
    }
    assert!(matches!(log.maintain_diff(7), Ok(None)));
}

#[test]
fn reading_again_keeps_the_record_and_notes_the_version() {
    let mut log = ActionLog::new();
    log.buffer_edited(&plain_buffer(7, "first", 1), vec![id(1)]);
    log.buffer_read(&plain_buffer(7, "second", 2));
    let record = log.tracked_buffer(7).unwrap();
    assert_eq!(record.version, 2);
    match &record.change {
        Change::Edited { edit_ids, initial_content } => {
            assert_eq!(edit_ids.to_vec(), vec![id(1)]);
            assert_eq!(initial_content.as_deref(), Some("first"));
        }
        Change::Deleted { .. } => panic!("the buffer is not deleted"),
    }
}

#[test]
fn editing_marks_dirty_and_stale_until_taken() {
    let mut log = ActionLog::new();
    log.buffer_edited(&plain_buffer(2, "b", 0), vec![id(1)]);
    log.buffer_edited(&plain_buffer(1, "a", 0), vec![]);
    assert!(log.has_edited_files_since_project_diagnostics_check());
    log.checked_project_diagnostics();
    assert!(!log.has_edited_files_since_project_diagnostics_check());
    let mut stale: Vec<u64> = log.take_stale_buffers_in_context().into_iter().collect();
    stale.sort();
    assert_eq!(stale, vec![1, 2]);
    assert!(log.take_stale_buffers_in_context().is_empty());
}

#[test]
fn recording_the_same_edit_again_changes_nothing() {
    let mut log = ActionLog::new();
    let buffer = plain_buffer(1, "a", 0);
    log.buffer_edited(&buffer, vec![id(1), id(2)]);
    let once = edit_ids_of(&log, 1);
    log.buffer_edited(&buffer, vec![id(2), id(1), id(1)]);
    log.buffer_edited(&buffer, vec![id(1)]);
    assert_eq!(edit_ids_of(&log, 1), once);
    assert_eq!(once, vec![id(1), id(2)]);
}

#[test]
fn observing_a_recorded_edit_changes_nothing() {
    let mut log = ActionLog::new();
    let mut buffer = TextBuffer::new(1, "hello world");
    let edit = buffer.edit(0..5, "HELLO").unwrap();
    log.buffer_edited(&buffer.snapshot(), vec![edit]);
    run_until_parked(&mut log, &[&buffer]);
    for _ in 0..3 {
        log.handle_buffer_event(&buffer.snapshot(), &edit_event(edit));
        assert_eq!(edit_ids_of(&log, 1), vec![edit]);
        assert!(!log.tracked_buffer(1).unwrap().diff_update);
    }
}

#[test]
fn observing_an_overlapping_edit_twice_attributes_it_once() {
    let mut log = ActionLog::new();
    let mut buffer = TextBuffer::new(1, "hello world");
    let tool = buffer.edit(0..5, "HELLO").unwrap();
    log.buffer_edited(&buffer.snapshot(), vec![tool]);
    let user = buffer.edit(2..3, "-").unwrap();
    log.handle_buffer_event(&buffer.snapshot(), &edit_event(user));
    assert_eq!(edit_ids_of(&log, 1), vec![tool, user]);
    log.handle_buffer_event(&buffer.snapshot(), &edit_event(user));
    assert_eq!(edit_ids_of(&log, 1), vec![tool, user]);
}

#[test]
fn user_edit_elsewhere_is_not_attributed_but_makes_the_buffer_stale() {
    let mut log = ActionLog::new();
    let mut buffer = TextBuffer::new(1, "hello world, good morning");
    let tool = buffer.edit(0..5, "HELLO").unwrap();
    log.buffer_edited(&buffer.snapshot(), vec![tool]);
    run_until_parked(&mut log, &[&buffer]);
    let mut versions = BTreeMap::new();
    versions.insert(1, buffer.version);
    assert_eq!(log.stale_buffers(&versions), Vec::<u64>::new());

    let user = buffer.edit(20..25, "night").unwrap();
    log.handle_buffer_event(&buffer.snapshot(), &edit_event(user));
    assert_eq!(edit_ids_of(&log, 1), vec![tool]);
    assert!(!log.tracked_buffer(1).unwrap().diff_update);
    versions.insert(1, buffer.version);
    assert_eq!(log.stale_buffers(&versions), vec![1]);

    log.buffer_read(&buffer.snapshot());
    assert_eq!(log.stale_buffers(&versions), Vec::<u64>::new());
}

#[test]
fn user_edit_that_touches_the_end_of_a_tool_edit_is_attributed() {
    let mut log = ActionLog::new();
    let mut buffer = TextBuffer::new(1, "hello world");
    let tool = buffer.edit(0..5, "HELLO").unwrap();
    log.buffer_edited(&buffer.snapshot(), vec![tool]);
    let user = buffer.edit(5..5, "!").unwrap();
    log.handle_buffer_event(&buffer.snapshot(), &edit_event(user));
    assert_eq!(edit_ids_of(&log, 1), vec![tool, user]);
    assert!(log.tracked_buffer(1).unwrap().diff_update);
}

#[test]
fn operations_that_are_no_edits_and_other_events_change_nothing() {
    let mut log = ActionLog::new();
    let mut buffer = TextBuffer::new(1, "hello world");
    let tool = buffer.edit(0..5, "HELLO").unwrap();
    log.buffer_edited(&buffer.snapshot(), vec![tool]);
    run_until_parked(&mut log, &[&buffer]);
    let events = [
        BufferEvent::Edited,
        BufferEvent::Saved,
        BufferEvent::Reloaded,
        BufferEvent::Operation { operation: Operation::UpdateSelections, is_local: true },
        BufferEvent::Operation { operation: Operation::UpdateDiagnostics, is_local: false },
        BufferEvent::Operation {
            operation: Operation::UpdateCompletionTriggers,
            is_local: false,
        },
        BufferEvent::Operation {
            operation: Operation::Buffer(TextOperation::Undo),
            is_local: true,
        },
    ];
    for event in &events {
        log.handle_buffer_event(&buffer.snapshot(), event);
        assert_eq!(edit_ids_of(&log, 1), vec![tool]);
        assert!(!log.tracked_buffer(1).unwrap().diff_update);
    }
}

#[test]
fn events_of_untracked_buffers_are_ignored() {
    let mut log = ActionLog::new();
    let mut buffer = TextBuffer::new(1, "hello");
    let edit = buffer.edit(0..1, "H").unwrap();
    log.handle_buffer_event(&buffer.snapshot(), &edit_event(edit));
    log.handle_buffer_event(&buffer.snapshot(), &BufferEvent::FileHandleChanged);
    log.keep_edits_in_range(&buffer.snapshot(), 0..5);
    log.buffer_cleared(1, Some(edit));
    log.diff_updated(1, line_diff("a", "b"));
    assert!(!log.is_tracked(1));
    assert!(log.changed_buffers().is_empty());
}

#[test]
fn keeping_never_adds_edits() {
    let mut log = ActionLog::new();
    let mut buffer = TextBuffer::new(1, "one two three four");
    let first = buffer.edit(0..3, "ONE").unwrap();
    let second = buffer.edit(8..13, "THREE").unwrap();
    log.buffer_edited(&buffer.snapshot(), vec![first, second]);
    let mut before = edit_ids_of(&log, 1);
    for range in [4..7, 14..18, 7..8, 0..0, 13..13, 0..18] {
        log.keep_edits_in_range(&buffer.snapshot(), range);
        assert!(log.tracked_buffer(1).unwrap().diff_update);
        let after = edit_ids_of(&log, 1);
        assert!(after.iter().all(|id| before.contains(id)));
        before = after;
    }
    assert_eq!(before, vec![]);
}

#[test]
fn keeping_a_range_that_only_touches_an_edit_keeps_it() {
    let mut log = ActionLog::new();
    let mut buffer = TextBuffer::new(1, "one two three four");
    let first = buffer.edit(0..3, "ONE").unwrap();
    let second = buffer.edit(8..13, "THREE").unwrap();
    log.buffer_edited(&buffer.snapshot(), vec![first, second]);
    log.keep_edits_in_range(&buffer.snapshot(), 4..7);
    assert_eq!(edit_ids_of(&log, 1), vec![first, second]);
    log.keep_edits_in_range(&buffer.snapshot(), 3..4);
    assert_eq!(edit_ids_of(&log, 1), vec![second]);
    log.keep_edits_in_range(&buffer.snapshot(), 13..18);
    assert_eq!(edit_ids_of(&log, 1), vec![]);
    assert!(log.is_tracked(1));
}

#[test]
fn keeping_leaves_edits_that_the_buffer_cannot_resolve() {
    let mut log = ActionLog::new();
    let buffer = plain_buffer(1, "text", 0);
    log.buffer_edited(&buffer, vec![id(9)]);
    log.keep_edits_in_range(&buffer, 0..4);
    assert_eq!(edit_ids_of(&log, 1), vec![id(9)]);
}

#[test]
fn keeping_a_deletion_drops_the_record() {
    let mut log = ActionLog::new();
    let mut buffer = TextBuffer::new(1, "lorem\n");
    assert!(log.will_delete_buffer(&buffer.snapshot()));
    let deletion_id = buffer.set_text("");
    log.buffer_cleared(1, deletion_id);
    run_until_parked(&mut log, &[&buffer]);
    assert_eq!(unreviewed_hunks(&log).len(), 1);
    log.keep_edits_in_range(&buffer.snapshot(), 0..0);
    assert!(!log.is_tracked(1));
    assert_eq!(unreviewed_hunks(&log), vec![]);
}

#[test]
fn deleting_a_buffer_that_the_tool_created_drops_the_record() {
    let mut log = ActionLog::new();
    let mut buffer = TextBuffer::new(1, "");
    let edit = buffer.set_text("new file");
    log.will_create_buffer(&buffer.snapshot(), edit);
    run_until_parked(&mut log, &[&buffer]);
    assert_eq!(
        unreviewed_hunks(&log),
        vec![(
            1,
            vec![HunkStatus {
                range: Point::new(0, 0)..Point::new(0, 8),
                diff_status: DiffHunkStatusKind::Added,
                old_text: "".into(),
            }],
        )]
    );
    match log.maintain_diff(1) {
        Ok(None) => {}
        _ => panic!("nothing is pending"),
    }
    assert!(!log.will_delete_buffer(&buffer.snapshot()));
    assert!(!log.is_tracked(1));
}

#[test]
fn creating_an_empty_buffer_records_no_edit() {
    let mut log = ActionLog::new();
    let buffer = plain_buffer(1, "", 0);
    log.will_create_buffer(&buffer, None);
    assert!(log.has_edited_files_since_project_diagnostics_check());
    let record = log.tracked_buffer(1).unwrap();
    assert!(record.diff_update);
    match &record.change {
        Change::Edited { edit_ids, initial_content } => {
            assert!(edit_ids.is_empty());
            assert!(initial_content.is_none());
        }
        Change::Deleted { .. } => panic!("the buffer is not deleted"),
    }
    match log.maintain_diff(1) {
        Ok(Some(DiffUpdate::Edited { edits_to_undo, initial_content })) => {
            assert!(edits_to_undo.is_empty());
            assert!(initial_content.is_none());
        }
        _ => panic!("a recomputation is pending"),
    }
}

#[test]
fn deleting_twice_asks_to_clear_once() {
    let mut log = ActionLog::new();
    let mut buffer = TextBuffer::new(1, "lorem\n");
    assert!(log.will_delete_buffer(&buffer.snapshot()));
    let deletion_id = buffer.set_text("");
    log.buffer_cleared(1, deletion_id);
    assert!(!log.will_delete_buffer(&buffer.snapshot()));
    match &log.tracked_buffer(1).unwrap().change {
        Change::Deleted { deleted_content, deletion_id: recorded } => {
            assert_eq!(deleted_content, "lorem\n");
            assert_eq!(*recorded, deletion_id);
        }
        Change::Edited { .. } => panic!("the buffer counts as deleted"),
    }
}

#[test]
fn editing_a_deleted_buffer_makes_the_deletion_reviewable() {
    let mut log = ActionLog::new();
    let mut buffer = TextBuffer::new(1, "lorem\n");
    assert!(log.will_delete_buffer(&buffer.snapshot()));
    let deletion_id = buffer.set_text("").unwrap();
    log.buffer_cleared(1, Some(deletion_id));
    let edit = buffer.set_text("new").unwrap();
    log.buffer_edited(&buffer.snapshot(), vec![edit]);
    assert_eq!(edit_ids_of(&log, 1), vec![deletion_id, edit]);
    match &log.tracked_buffer(1).unwrap().change {
        Change::Edited { initial_content, .. } => {
            assert_eq!(initial_content.as_deref(), Some("lorem\n"))
        }
        Change::Deleted { .. } => panic!("the buffer has content again"),
    }
}

#[test]
fn deleted_buffer_restored_with_other_content_starts_over() {
    let mut log = ActionLog::new();
    let mut buffer = TextBuffer::new(1, "content");
    buffer.file = Some(DiskState::Present);
    assert!(log.will_delete_buffer(&buffer.snapshot()));
    let deletion_id = buffer.set_text("");
    log.buffer_cleared(1, deletion_id);
    buffer.file = Some(DiskState::Deleted);
    log.handle_buffer_event(&buffer.snapshot(), &BufferEvent::FileHandleChanged);
    run_until_parked(&mut log, &[&buffer]);
    assert_eq!(unreviewed_hunks(&log).len(), 1);

    buffer.set_text("other content");
    buffer.file = Some(DiskState::New);
    log.handle_buffer_event(&buffer.snapshot(), &BufferEvent::FileHandleChanged);
    match &log.tracked_buffer(1).unwrap().change {
        Change::Edited { edit_ids, initial_content } => {
            assert!(edit_ids.is_empty());
            assert_eq!(initial_content.as_deref(), Some("other content"));
        }
        Change::Deleted { .. } => panic!("the buffer still counts as deleted"),
    }
    run_until_parked(&mut log, &[&buffer]);
    assert_eq!(unreviewed_hunks(&log), vec![]);
    assert!(log.tracked_buffer(1).unwrap().diff.hunks.is_empty());
}

#[test]
fn file_change_without_a_file_only_reschedules() {
    let mut log = ActionLog::new();
    let mut buffer = TextBuffer::new(1, "content");
    let edit = buffer.edit(0..1, "C").unwrap();
    log.buffer_edited(&buffer.snapshot(), vec![edit]);
    run_until_parked(&mut log, &[&buffer]);
    assert!(!log.tracked_buffer(1).unwrap().diff_update);
    log.handle_buffer_event(&buffer.snapshot(), &BufferEvent::FileHandleChanged);
    assert!(log.tracked_buffer(1).unwrap().diff_update);
    assert_eq!(edit_ids_of(&log, 1), vec![edit]);

    let mut deleted = TextBuffer::new(2, "gone");
    assert!(log.will_delete_buffer(&deleted.snapshot()));
    let deletion_id = deleted.set_text("");
    log.buffer_cleared(2, deletion_id);
    run_until_parked(&mut log, &[&deleted]);
    log.handle_buffer_event(&deleted.snapshot(), &BufferEvent::FileHandleChanged);
    assert!(log.tracked_buffer(2).unwrap().diff_update);
    assert!(matches!(log.tracked_buffer(2).unwrap().change, Change::Deleted { .. }));
}

#[test]
fn many_requests_make_one_recomputation_against_the_latest_state() {
    let mut log = ActionLog::new();
    let buffer = plain_buffer(1, "text", 0);
    log.buffer_edited(&buffer, vec![id(1)]);
    log.buffer_edited(&buffer, vec![id(2)]);
    log.handle_buffer_event(&buffer, &BufferEvent::FileHandleChanged);
    match log.maintain_diff(1) {
        Ok(Some(DiffUpdate::Edited { mut edits_to_undo, initial_content })) => {
            edits_to_undo.sort_by_key(|entry| entry.0.value);
            assert_eq!(edits_to_undo, vec![(id(1), u32::MAX), (id(2), u32::MAX)]);
            assert_eq!(initial_content.as_deref(), Some("text"));
        }
        _ => panic!("a recomputation is pending"),
    }
    assert!(matches!(log.maintain_diff(1), Ok(None)));
}

#[test]
fn deleted_buffer_is_diffed_against_the_deleted_content() {
    let mut log = ActionLog::new();
    let buffer = plain_buffer(1, "lorem\n", 0);
    assert!(log.will_delete_buffer(&buffer));
    match log.maintain_diff(1) {
        Ok(Some(DiffUpdate::Deleted { base_text })) => assert_eq!(base_text, "lorem\n"),
        _ => panic!("a recomputation against the deleted content is pending"),
    }
    log.buffer_cleared(1, None);
    assert!(matches!(log.maintain_diff(1), Ok(Some(DiffUpdate::Deleted { .. }))));
}

#[test]
fn changed_buffers_lists_buffers_with_hunks_in_order() {
    let mut log = ActionLog::new();
    for id in [5, 3, 9, 1] {
        log.buffer_read(&plain_buffer(id, "a\n", 0));
    }
    log.diff_updated(9, line_diff("a\n", "b\n"));
    log.diff_updated(3, line_diff("a\n", "a\nb\n"));
    log.diff_updated(5, line_diff("a\n", "a\n"));
    let changed: Vec<u64> = log.changed_buffers().into_keys().collect();
    assert_eq!(changed, vec![3, 9]);
    let hunks = unreviewed_hunks(&log);
    assert_eq!(hunks[0].1[0].diff_status, DiffHunkStatusKind::Added);
    assert_eq!(hunks[0].1[0].range, Point::new(1, 0)..Point::new(2, 0));
    assert_eq!(hunks[1].1[0].diff_status, DiffHunkStatusKind::Modified);
    assert_eq!(hunks[1].1[0].old_text, "a\n");
}

#[test]
fn stale_buffers_are_reported_in_ascending_order() {
    let mut log = ActionLog::new();
    for id in [8, 2, 6, 4] {
        log.buffer_read(&plain_buffer(id, "", id));
    }
    let mut versions = BTreeMap::new();
    versions.insert(8, 9);
    versions.insert(2, 2);
    versions.insert(4, 0);
    versions.insert(7, 1);
    assert_eq!(log.stale_buffers(&versions), vec![4, 8]);
}

#[test]
fn error_says_that_the_buffer_is_not_tracked() {
    assert_eq!(ActionLogError::BufferNotTracked.message(), "buffer not tracked");
}
