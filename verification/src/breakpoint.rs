//! The kinds of breakpoints, and breakpoints as they are stored and announced.

use std::sync::Arc;
use vstd::prelude::*;
use vstd::std_specs::cmp::PartialEqSpecImpl;

verus! {

/// A file of a worktree, by the path from the root of the worktree.
#[derive(Clone, Debug)]
pub struct ProjectPath {
    pub worktree_id: usize,
    pub path: Arc<str>,
}

/// What a breakpoint store announces.
#[derive(Debug)]
pub enum BreakpointStoreEvent {
    BreakpointsChanged { project_path: ProjectPath, source_changed: bool },
}

/// What to do to the breakpoint of a line.
#[derive(Clone, Debug)]
pub enum BreakpointEditAction {
    Toggle,
    EditLogMessage(Arc<str>),
}

/// What a breakpoint does when it is hit: stop, or log a message and go on.
#[derive(Clone, Debug)]
pub enum BreakpointKind {
    Standard,
    Log(Arc<str>),
}

impl BreakpointKind {
    /// The number of the kind: 0 for a standard breakpoint, 1 for a log
    /// breakpoint.
    pub open spec fn spec_to_int(&self) -> i32 {
        match self {
            BreakpointKind::Standard => 0,
            BreakpointKind::Log(_) => 1,
        }
    }

    pub fn to_int(&self) -> (number: i32)
        ensures
            number == self.spec_to_int(),
    {
        match self {
            BreakpointKind::Standard => 0,
            BreakpointKind::Log(_) => 1,
        }
    }

    /// The message of a log breakpoint.
    pub fn log_message(&self) -> (message: Option<Arc<str>>)
        ensures
            message == match *self {
                BreakpointKind::Standard => None::<Arc<str>>,
                BreakpointKind::Log(text) => Some(text),
            },
    {
        match self {
            BreakpointKind::Standard => None,
            BreakpointKind::Log(message) => Some(message.clone()),
        }
    }
}

impl PartialEq for BreakpointKind {
    /// Two kinds are equal when both are standard or both log, whatever the
    /// message.
    fn eq(&self, other: &Self) -> (equal: bool) {
        match (self, other) {
            (BreakpointKind::Standard, BreakpointKind::Standard) => true,
            (BreakpointKind::Log(_), BreakpointKind::Log(_)) => true,
            _ => false,
        }
    }
}

impl PartialEqSpecImpl for BreakpointKind {
    open spec fn obeys_eq_spec() -> bool {
        true
    }

    open spec fn eq_spec(&self, other: &Self) -> bool {
        self.spec_to_int() == other.spec_to_int()
    }
}

impl Eq for BreakpointKind {

}

/// A breakpoint as it is written to storage: the line, counted from one, the
/// file, and the kind.
#[derive(Clone, Debug, PartialEq, Eq)]
pub struct SerializedBreakpoint {
    pub position: u32,
    pub path: Arc<str>,
    pub kind: BreakpointKind,
}

impl SerializedBreakpoint {
    /// Whether the breakpoint names a line: lines are counted from one, so
    /// the position of a stored breakpoint is never zero.
    pub open spec fn well_formed(&self) -> bool {
        self.position >= 1
    }

    /// The stored breakpoint of the line `position` of `path`, or nothing
    /// where `position` is zero and so names no line.
    pub fn new(position: u32, path: Arc<str>, kind: BreakpointKind) -> (stored: Option<Self>)
        ensures
            stored is Some <==> position >= 1,
            stored matches Some(breakpoint) ==> breakpoint.well_formed() && breakpoint == (
            SerializedBreakpoint { position, path, kind }),
    {
        if position >= 1 {
            Some(SerializedBreakpoint { position, path, kind })
        } else {
            None
        }
    }

    /// Whether the breakpoint names a line.
    pub fn is_well_formed(&self) -> (valid: bool)
        ensures
            valid == self.well_formed(),
    {
        self.position >= 1
    }
}

} // verus!
