//! Properties that relate the watcher's decisions across events and calls.
use vstd::prelude::*;

use crate::event::{RawEvent, Report};
use crate::kinds::WatcherType;
use crate::names::{child_path_of, is_hidden_name, walk_enters};
use crate::state::{planned_watch, registry_after_watch, report_for};

verus! {

/// The registry built from watches recorded in order, each a handle and the
/// path of the directory it watches.
pub open spec fn registry_of(records: Seq<(i32, Seq<u8>)>) -> Map<i32, Seq<u8>>
    decreases records.len(),
{
    if records.len() == 0 {
        Map::empty()
    } else {
        registry_of(records.drop_last()).insert(records.last().0, records.last().1)
    }
}

/// No two records share a handle.
pub open spec fn distinct_handles(records: Seq<(i32, Seq<u8>)>) -> bool {
    forall|i: int, j: int|
        0 <= i < j < records.len() ==> #[trigger] records[i].0 != #[trigger] records[j].0
}

/// No two records share a path.
pub open spec fn distinct_paths(records: Seq<(i32, Seq<u8>)>) -> bool {
    forall|i: int, j: int|
        0 <= i < j < records.len() ==> #[trigger] records[i].1 != #[trigger] records[j].1
}

/// A hidden entry is never put under watch: a recursive walk does not enter
/// it below the root, whatever its type, nor does a directory created under
/// that name lead to a new watch.
pub proof fn hidden_entries_never_watched(
    name: Seq<u8>,
    is_dir: bool,
    kind: WatcherType,
    registry: Option<Map<i32, Seq<u8>>>,
    ev: RawEvent,
)
    requires
        is_hidden_name(name),
        ev.name matches Some(n) && n@ == name,
    ensures
        !walk_enters(name, is_dir, false),
        planned_watch(kind, registry, ev) is None,
{
}

/// Recording one more watch extends the registry built from the earlier
/// records by that one record.
pub proof fn recording_extends_registry(records: Seq<(i32, Seq<u8>)>, wd: i32, path: Seq<u8>)
    ensures
        registry_after_watch(Some(registry_of(records)), wd, path) == Some(
            registry_of(records.push((wd, path))),
        ),
{
    assert(records.push((wd, path)).drop_last() == records);
}

/// Every directory registered while a recursive watcher is built resolves
/// through its handle to its path, and the registry holds no other handle.
/// Where the paths are distinct, that handle is the only entry with the
/// path.
pub proof fn construction_registers_each_directory(records: Seq<(i32, Seq<u8>)>)
    requires
        distinct_handles(records),
    ensures
        forall|i: int|
            0 <= i < records.len() ==> {
                &&& registry_of(records).contains_key(#[trigger] records[i].0)
                &&& registry_of(records)[records[i].0] == records[i].1
            },
        forall|k: i32|
            registry_of(records).contains_key(k) ==> exists|i: int|
                0 <= i < records.len() && #[trigger] records[i].0 == k,
        distinct_paths(records) ==> forall|i: int, k: i32|
            0 <= i < records.len() && #[trigger] registry_of(records).contains_key(k)
                && registry_of(records)[k] == #[trigger] records[i].1 ==> k == records[i].0,
    decreases records.len(),
{
    if records.len() > 0 {
        let init = records.drop_last();
        let last = records.len() - 1;
        assert(distinct_handles(init)) by {
            assert forall|i: int, j: int| 0 <= i < j < init.len() implies init[i].0 != init[j].0 by {
                assert(records[i].0 != records[j].0);
            }
        }
        construction_registers_each_directory(init);
        assert(registry_of(records) == registry_of(init).insert(records[last].0, records[last].1));
        assert forall|i: int| 0 <= i < records.len() implies {
            &&& registry_of(records).contains_key(#[trigger] records[i].0)
            &&& registry_of(records)[records[i].0] == records[i].1
        } by {
            if i < last {
                assert(init[i] == records[i]);
                assert(records[i].0 != records[last].0);
            }
        }
        assert forall|k: i32| registry_of(records).contains_key(k) implies exists|i: int|
            0 <= i < records.len() && #[trigger] records[i].0 == k by {
            if k != records[last].0 {
                assert(registry_of(init).contains_key(k));
                let i = choose|i: int| 0 <= i < init.len() && #[trigger] init[i].0 == k;
                assert(records[i] == init[i]);
            } else {
                assert(records[last].0 == k);
            }
        }
        if distinct_paths(records) {
            assert(distinct_paths(init)) by {
                assert forall|i: int, j: int| 0 <= i < j < init.len() implies init[i].1 != init[j].1 by {
                    assert(records[i].1 != records[j].1);
                }
            }
            assert forall|i: int, k: i32|
                0 <= i < records.len() && #[trigger] registry_of(records).contains_key(k)
                    && registry_of(records)[k] == #[trigger] records[i].1 implies k == records[i].0 by {
                if k == records[last].0 {
                    if i != last {
                        assert(records[i].1 != records[last].1);
                    }
                } else {
                    assert(registry_of(init).contains_key(k));
                    if i == last {
                        let j = choose|j: int| 0 <= j < init.len() && #[trigger] init[j].0 == k;
                        assert(records[j] == init[j]);
                        assert(registry_of(init)[k] == init[j].1);
                        assert(records[j].1 != records[last].1);
                    } else {
                        assert(init[i] == records[i]);
                    }
                }
            }
        }
    }
}

/// A visible directory created under a registered directory of a recursive
/// watcher is reported as created and put under watch at the child path;
/// once recorded under a fresh handle it is the one new entry, and a
/// directory created inside it is watched in turn.
pub proof fn new_visible_directory_is_watched(
    registry: Map<i32, Seq<u8>>,
    ev: RawEvent,
    new_wd: i32,
    next: RawEvent,
)
    requires
        ev.create && ev.is_dir,
        ev.name matches Some(n) && !is_hidden_name(n@),
        registry.contains_key(ev.wd),
        !registry.contains_key(new_wd),
        next.wd == new_wd,
        next.create && next.is_dir,
        next.name matches Some(n) && !is_hidden_name(n@),
    ensures
        ({
            let path = child_path_of(registry[ev.wd], ev.name->Some_0@);
            let grown = registry.insert(new_wd, path);
            &&& report_for(WatcherType::DIRECTORY, ev) == Report::DirectoryCreated
            &&& planned_watch(WatcherType::DIRECTORY, Some(registry), ev) == Some(path)
            &&& registry_after_watch(Some(registry), new_wd, path) == Some(grown)
            &&& grown.dom() == registry.dom().insert(new_wd)
            &&& report_for(WatcherType::DIRECTORY, next) == Report::DirectoryCreated
            &&& planned_watch(WatcherType::DIRECTORY, Some(grown), next) == Some(
                child_path_of(path, next.name->Some_0@),
            )
        }),
{
}

/// A directory created under a hidden name is reported as created, and no
/// watch and no registry entry follow from it.
pub proof fn hidden_directory_reported_not_watched(
    registry: Option<Map<i32, Seq<u8>>>,
    ev: RawEvent,
)
    requires
        ev.create && ev.is_dir,
        ev.name matches Some(n) && is_hidden_name(n@),
    ensures
        report_for(WatcherType::DIRECTORY, ev) == Report::DirectoryCreated,
        planned_watch(WatcherType::DIRECTORY, registry, ev) is None,
{
}

/// A watcher without a registry, as a heuristic directory watcher is, never
/// asks for a watch beyond its initial one, and recording leaves it without
/// a registry.
pub proof fn heuristic_watcher_adds_no_watch(
    ev: RawEvent,
    wd: i32,
    path: Seq<u8>,
)
    ensures
        planned_watch(WatcherType::DIRECTORY, None, ev) is None,
        registry_after_watch(None, wd, path) is None,
{
}

/// A file watcher reports a modification as a modified file and every other
/// event as unexpected, and never asks for a watch.
pub proof fn file_watcher_reports(registry: Option<Map<i32, Seq<u8>>>, ev: RawEvent)
    ensures
        ev.modify ==> report_for(WatcherType::FILE, ev) == Report::FileModified,
        !ev.modify ==> report_for(WatcherType::FILE, ev) == Report::Unexpected,
        planned_watch(WatcherType::FILE, registry, ev) is None,
{
}

} // verus!
