use vstd::prelude::*;

verus! {

/// One raw event from the event source, reduced to what the decisions read.
pub struct RawEvent {
    /// The handle of the watch the event came through.
    pub wd: i32,
    /// The event reports that an entry was created.
    pub create: bool,
    /// The event reports that an entry was deleted.
    pub delete: bool,
    /// The event reports that an entry was modified.
    pub modify: bool,
    /// The entry the event is about is a directory.
    pub is_dir: bool,
    /// The child's name as bytes, for an event under a directory watch.
    pub name: Option<Vec<u8>>,
}

/// What a watcher reports of one event.
#[derive(Clone, Copy, Debug, PartialEq, Eq, Structural)]
pub enum Report {
    DirectoryCreated,
    DirectoryDeleted,
    DirectoryModified,
    FileCreated,
    FileDeleted,
    FileModified,
    /// A file watcher saw something other than a modification.
    Unexpected,
    /// A directory watcher saw none of creation, deletion and modification:
    /// nothing is reported.
    Ignored,
}

/// How a directory watcher classifies an event: creation first, then
/// deletion, then modification, each split by whether the target is a
/// directory.
pub open spec fn dir_report(create: bool, delete: bool, modify: bool, is_dir: bool) -> Report {
    if create {
        if is_dir { Report::DirectoryCreated } else { Report::FileCreated }
    } else if delete {
        if is_dir { Report::DirectoryDeleted } else { Report::FileDeleted }
    } else if modify {
        if is_dir { Report::DirectoryModified } else { Report::FileModified }
    } else {
        Report::Ignored
    }
}

/// How a file watcher classifies an event: a modification, or unexpected.
pub open spec fn file_report(modify: bool) -> Report {
    if modify {
        Report::FileModified
    } else {
        Report::Unexpected
    }
}

/// Classifies an event seen by a directory watcher.
pub fn classify_dir_event(ev: &RawEvent) -> (r: Report)
    ensures
        r == dir_report(ev.create, ev.delete, ev.modify, ev.is_dir),
{
    if ev.create {
        if ev.is_dir { Report::DirectoryCreated } else { Report::FileCreated }
    } else if ev.delete {
        if ev.is_dir { Report::DirectoryDeleted } else { Report::FileDeleted }
    } else if ev.modify {
        if ev.is_dir { Report::DirectoryModified } else { Report::FileModified }
    } else {
        Report::Ignored
    }
}

/// Classifies an event seen by a file watcher.
pub fn classify_file_event(ev: &RawEvent) -> (r: Report)
    ensures
        r == file_report(ev.modify),
{
    if ev.modify {
        Report::FileModified
    } else {
        Report::Unexpected
    }
}

} // verus!
