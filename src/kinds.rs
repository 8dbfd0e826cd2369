use vstd::prelude::*;

verus! {

/// How a directory tree is put under watch.
#[derive(Clone, Copy, Debug, PartialEq, Eq, Structural)]
pub enum Traversal {
    /// Walk the whole tree up front and watch every visible directory.
    RECURSIVE,
    /// Watch the root directory only.
    HEURISTIC,
}

/// What a watcher observes: one file, or a directory tree.
#[derive(Clone, Copy, Debug, PartialEq, Eq, Structural)]
pub enum WatcherType {
    FILE,
    DIRECTORY,
}

/// The kinds of change a watch asks the event source to report.
#[derive(Clone, Copy, Debug, PartialEq, Eq, Structural)]
pub struct Interest {
    pub create: bool,
    pub modify: bool,
    pub delete: bool,
}

impl Interest {
    pub open spec fn spec_for(kind: WatcherType) -> Interest {
        match kind {
            WatcherType::FILE => Interest { create: false, modify: true, delete: true },
            WatcherType::DIRECTORY => Interest { create: true, modify: true, delete: true },
        }
    }

    /// A file is watched for modification and deletion; a directory also for
    /// creation of entries inside it.
    pub fn for_kind(kind: WatcherType) -> (r: Interest)
        ensures
            r == Interest::spec_for(kind),
    {
        match kind {
            WatcherType::FILE => Interest { create: false, modify: true, delete: true },
            WatcherType::DIRECTORY => Interest { create: true, modify: true, delete: true },
        }
    }
}

} // verus!
