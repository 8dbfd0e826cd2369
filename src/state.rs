use vstd::prelude::*;

use crate::event::{
    classify_dir_event, classify_file_event, dir_report, file_report, RawEvent, Report,
};
use crate::kinds::{Interest, Traversal, WatcherType};
use crate::names::{child_path, child_path_of, is_hidden, is_hidden_name};
use crate::registry::WatchRegistry;

verus! {

/// The path of the directory that an event asks a watcher to put under
/// watch, if any: only a directory watcher with a registry does so, on the
/// creation of a directory whose name is given and not hidden, under a
/// registered handle.
pub open spec fn planned_watch(
    kind: WatcherType,
    registry: Option<Map<i32, Seq<u8>>>,
    ev: RawEvent,
) -> Option<Seq<u8>> {
    match (registry, ev.name) {
        (Some(m), Some(n)) => if kind == WatcherType::DIRECTORY && ev.create && ev.is_dir
            && !is_hidden_name(n@) && m.contains_key(ev.wd) {
            Some(child_path_of(m[ev.wd], n@))
        } else {
            None
        },
        _ => None,
    }
}

/// What a watcher of `kind` reports of an event.
pub open spec fn report_for(kind: WatcherType, ev: RawEvent) -> Report {
    match kind {
        WatcherType::FILE => file_report(ev.modify),
        WatcherType::DIRECTORY => dir_report(ev.create, ev.delete, ev.modify, ev.is_dir),
    }
}

/// The registry after a watch on the directory at `path` was obtained under
/// handle `wd`: a watcher without a registry stays without one.
pub open spec fn registry_after_watch(
    registry: Option<Map<i32, Seq<u8>>>,
    wd: i32,
    path: Seq<u8>,
) -> Option<Map<i32, Seq<u8>>> {
    match registry {
        Some(m) => Some(m.insert(wd, path)),
        None => None,
    }
}

/// The decision for a batch of events: only its first event is acted on,
/// and an empty batch calls for no decision.
pub open spec fn batch_decision(
    kind: WatcherType,
    registry: Option<Map<i32, Seq<u8>>>,
    batch: Seq<RawEvent>,
) -> Option<(Report, Option<Seq<u8>>)> {
    if batch.len() == 0 {
        None
    } else {
        Some((report_for(kind, batch[0]), planned_watch(kind, registry, batch[0])))
    }
}

/// The decision for one event: what to report, and which directory to put
/// under watch next.
pub struct Step {
    pub report: Report,
    pub register: Option<Vec<u8>>,
}

/// The state of a watcher apart from its connection to the event source:
/// what it watches and, for a recursive directory watcher, the registry.
pub struct WatchState {
    kind: WatcherType,
    registry: Option<WatchRegistry>,
}

impl WatchState {
    pub closed spec fn spec_kind(&self) -> WatcherType {
        self.kind
    }

    /// The registry's contents, `None` when the watcher has no registry.
    pub closed spec fn spec_registry(&self) -> Option<Map<i32, Seq<u8>>> {
        match self.registry {
            Some(r) => Some(r@),
            None => None,
        }
    }

    /// Only a directory watcher has a registry.
    pub open spec fn wf(&self) -> bool {
        self.spec_registry() is Some ==> self.spec_kind() == WatcherType::DIRECTORY
    }

    /// The state of a watcher on one file: it has no registry.
    pub fn for_file() -> (r: WatchState)
        ensures
            r.wf(),
            r.spec_kind() == WatcherType::FILE,
            r.spec_registry() is None,
    {
        WatchState { kind: WatcherType::FILE, registry: None }
    }

    /// The state of a watcher on a directory tree: a recursive one starts
    /// with an empty registry, a heuristic one has none.
    pub fn for_directory(trav: Traversal) -> (r: WatchState)
        ensures
            r.wf(),
            r.spec_kind() == WatcherType::DIRECTORY,
            r.spec_registry() == (match trav {
                Traversal::RECURSIVE => Some(Map::<i32, Seq<u8>>::empty()),
                Traversal::HEURISTIC => None::<Map<i32, Seq<u8>>>,
            }),
    {
        let registry = match trav {
            Traversal::RECURSIVE => Some(WatchRegistry::new()),
            Traversal::HEURISTIC => None,
        };
        WatchState { kind: WatcherType::DIRECTORY, registry }
    }

    pub fn kind(&self) -> (r: WatcherType)
        ensures
            r == self.spec_kind(),
    {
        self.kind
    }

    /// The kinds of change that every watch of this watcher asks for.
    pub fn interest(&self) -> (r: Interest)
        ensures
            r == Interest::spec_for(self.spec_kind()),
    {
        Interest::for_kind(self.kind)
    }

    /// The registry, if the watcher has one.
    pub fn registry(&self) -> (r: Option<&WatchRegistry>)
        ensures
            match r {
                Some(reg) => self.spec_registry() == Some(reg@),
                None => self.spec_registry() is None,
            },
    {
        match &self.registry {
            Some(reg) => Some(reg),
            None => None,
        }
    }

    /// Records that the directory at `path` is watched under handle `wd`.
    /// Without a registry nothing is recorded.
    pub fn record_watch(&mut self, wd: i32, path: Vec<u8>)
        requires
            old(self).wf(),
        ensures
            final(self).wf(),
            final(self).spec_kind() == old(self).spec_kind(),
            final(self).spec_registry() == registry_after_watch(
                old(self).spec_registry(),
                wd,
                path@,
            ),
    {
        if let Some(reg) = &mut self.registry {
            reg.insert(wd, path);
        }
    }

    /// Decides what one event means: what is reported, and which new
    /// directory, if any, must be put under watch (and then recorded with
    /// `record_watch`).
    pub fn decide(&self, ev: &RawEvent) -> (r: Step)
        requires
            self.wf(),
        ensures
            r.report == report_for(self.spec_kind(), *ev),
            r.register.deep_view() == planned_watch(self.spec_kind(), self.spec_registry(), *ev),
    {
        match self.kind {
            WatcherType::FILE => Step { report: classify_file_event(ev), register: None },
            WatcherType::DIRECTORY => {
                let report = classify_dir_event(ev);
                let register = self.new_watch_path(ev);
                Step { report, register }
            },
        }
    }

    /// Decides what a batch of events means: the first event is decided as
    /// `decide` does, the others are dropped, and an empty batch gives
    /// `None`.
    pub fn decide_batch(&self, batch: &Vec<RawEvent>) -> (r: Option<Step>)
        requires
            self.wf(),
        ensures
            match r {
                Some(step) => batch_decision(self.spec_kind(), self.spec_registry(), batch@)
                    == Some((step.report, step.register.deep_view())),
                None => batch_decision(self.spec_kind(), self.spec_registry(), batch@) is None,
            },
    {
        if batch.len() == 0 {
            None
        } else {
            Some(self.decide(&batch[0]))
        }
    }

    /// The directory that a directory watcher must watch after `ev`.
    fn new_watch_path(&self, ev: &RawEvent) -> (r: Option<Vec<u8>>)
        requires
            self.spec_kind() == WatcherType::DIRECTORY,
        ensures
            r.deep_view() == planned_watch(self.spec_kind(), self.spec_registry(), *ev),
    {
        if !(ev.create && ev.is_dir) {
            return None;
        }
        match (&self.registry, &ev.name) {
            (Some(reg), Some(name)) => {
                if is_hidden(name.as_slice()) {
                    None
                } else {
                    match reg.path_of(ev.wd) {
                        Some(parent) => Some(child_path(parent.as_slice(), name.as_slice())),
                        None => None,
                    }
                }
            },
            _ => None,
        }
    }
}

} // verus!
