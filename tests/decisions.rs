use dirwatch::event::{classify_dir_event, classify_file_event, RawEvent, Report};
use dirwatch::kinds::{Interest, Traversal, WatcherType};
use dirwatch::names::{child_path, enters_entry, is_hidden};
use dirwatch::registry::WatchRegistry;
use dirwatch::state::WatchState;

fn event(wd: i32, create: bool, delete: bool, modify: bool, is_dir: bool, name: Option<&str>) -> RawEvent {
    RawEvent { wd, create, delete, modify, is_dir, name: name.map(|n| n.as_bytes().to_vec()) }
}

fn raw_event(wd: i32, create: bool, is_dir: bool, name: &[u8]) -> RawEvent {
    RawEvent { wd, create, delete: false, modify: false, is_dir, name: Some(name.to_vec()) }
}

fn recursive_with(records: &[(i32, &str)]) -> WatchState {
    let mut state = WatchState::for_directory(Traversal::RECURSIVE);
    for (wd, path) in records {
        state.record_watch(*wd, path.as_bytes().to_vec());
    }
    state
}

#[test]
fn file_watcher_reports_append_as_modified() {
    let state = WatchState::for_file();
    assert_eq!(state.kind(), WatcherType::FILE);
    let step = state.decide(&event(1, false, false, true, false, None));
    assert_eq!(step.report, Report::FileModified);
    assert!(step.register.is_none());
    assert!(state.registry().is_none());
}

#[test]
fn file_watcher_reports_other_events_as_unexpected() {
    let state = WatchState::for_file();
    let step = state.decide(&event(1, false, true, false, false, Some("x.txt")));
    assert_eq!(step.report, Report::Unexpected);
    assert!(step.register.is_none());
    assert_eq!(classify_file_event(&event(1, true, false, false, false, None)), Report::Unexpected);
}

#[test]
fn recursive_watcher_watches_new_subdirectory() {
    let mut state = recursive_with(&[(1, "/tmp/root"), (2, "/tmp/root/a")]);
    let step = state.decide(&event(2, true, false, false, true, Some("b")));
    assert_eq!(step.report, Report::DirectoryCreated);
    let path = step.register.expect("a new watch");
    assert_eq!(path, b"/tmp/root/a/b".to_vec());
    state.record_watch(3, path);
    let reg = state.registry().expect("a registry");
    assert_eq!(reg.len(), 3);
    assert_eq!(reg.path_of(3).map(|p| p.as_slice()), Some(&b"/tmp/root/a/b"[..]));
    assert_eq!(reg.path_of(2).map(|p| p.as_slice()), Some(&b"/tmp/root/a"[..]));
}

#[test]
fn creations_inside_new_subdirectory_are_watched() {
    let mut state = recursive_with(&[(1, "/tmp/root")]);
    let first = state.decide(&event(1, true, false, false, true, Some("a")));
    state.record_watch(7, first.register.expect("a new watch"));
    let second = state.decide(&event(7, true, false, false, true, Some("b")));
    assert_eq!(second.report, Report::DirectoryCreated);
    assert_eq!(second.register.as_deref(), Some(&b"/tmp/root/a/b"[..]));
    let file = state.decide(&event(7, true, false, false, false, Some("f.txt")));
    assert_eq!(file.report, Report::FileCreated);
    assert!(file.register.is_none());
}

#[test]
fn hidden_subdirectory_is_reported_not_watched() {
    let state = recursive_with(&[(1, "/tmp/root")]);
    let step = state.decide(&event(1, true, false, false, true, Some(".git")));
    assert_eq!(step.report, Report::DirectoryCreated);
    assert!(step.register.is_none());
    assert_eq!(state.registry().map(|r| r.len()), Some(1));
}

#[test]
fn heuristic_watcher_never_adds_watches() {
    let mut state = WatchState::for_directory(Traversal::HEURISTIC);
    let step = state.decide(&event(1, true, false, false, true, Some("sub")));
    assert_eq!(step.report, Report::DirectoryCreated);
    assert!(step.register.is_none());
    state.record_watch(2, b"/tmp/root/sub".to_vec());
    assert!(state.registry().is_none());
}

#[test]
fn unknown_handle_gives_no_watch() {
    let state = recursive_with(&[(1, "/tmp/root")]);
    let step = state.decide(&event(9, true, false, false, true, Some("a")));
    assert_eq!(step.report, Report::DirectoryCreated);
    assert!(step.register.is_none());
}

#[test]
fn nameless_creation_gives_no_watch() {
    let state = recursive_with(&[(1, "/tmp/root")]);
    let step = state.decide(&event(1, true, false, false, true, None));
    assert_eq!(step.report, Report::DirectoryCreated);
    assert!(step.register.is_none());
}

#[test]
fn non_utf8_name_is_watched_by_its_bytes() {
    let state = recursive_with(&[(1, "/tmp/root")]);
    let step = state.decide(&raw_event(1, true, true, &[0xff, 0x61]));
    assert_eq!(step.report, Report::DirectoryCreated);
    assert_eq!(step.register, Some(vec![b'/', b't', b'm', b'p', b'/', b'r', b'o', b'o', b't', b'/', 0xff, 0x61]));
}

#[test]
fn non_utf8_hidden_name_is_not_watched() {
    let state = recursive_with(&[(1, "/tmp/root")]);
    let step = state.decide(&raw_event(1, true, true, &[b'.', 0xff]));
    assert_eq!(step.report, Report::DirectoryCreated);
    assert!(step.register.is_none());
}

#[test]
fn directory_events_classified_in_priority_order() {
    assert_eq!(classify_dir_event(&event(1, true, true, true, true, None)), Report::DirectoryCreated);
    assert_eq!(classify_dir_event(&event(1, true, true, true, false, None)), Report::FileCreated);
    assert_eq!(classify_dir_event(&event(1, false, true, true, true, None)), Report::DirectoryDeleted);
    assert_eq!(classify_dir_event(&event(1, false, true, true, false, None)), Report::FileDeleted);
    assert_eq!(classify_dir_event(&event(1, false, false, true, true, None)), Report::DirectoryModified);
    assert_eq!(classify_dir_event(&event(1, false, false, true, false, None)), Report::FileModified);
    assert_eq!(classify_dir_event(&event(1, false, false, false, true, None)), Report::Ignored);
}

#[test]
fn deletion_and_modification_add_no_watch() {
    let state = recursive_with(&[(1, "/tmp/root")]);
    let deleted = state.decide(&event(1, false, true, false, true, Some("a")));
    assert_eq!(deleted.report, Report::DirectoryDeleted);
    assert!(deleted.register.is_none());
    let modified = state.decide(&event(1, false, false, true, false, Some("f")));
    assert_eq!(modified.report, Report::FileModified);
    assert!(modified.register.is_none());
}

#[test]
fn hidden_names_start_with_a_dot() {
    assert!(is_hidden(b".git"));
    assert!(is_hidden(b"."));
    assert!(is_hidden(&[b'.', 0xff, 0xfe]));
    assert!(!is_hidden(b"src"));
    assert!(!is_hidden(b""));
    assert!(!is_hidden(b"a.b"));
    assert!(!is_hidden(&[0xff, b'.']));
}

#[test]
fn walk_enters_visible_directories_only() {
    assert!(enters_entry(b"a", true, false));
    assert!(!enters_entry(b".hidden", true, false));
    assert!(!enters_entry(b"a", false, false));
    assert!(!enters_entry(b".hidden", false, false));
    assert!(enters_entry(&[0xff], true, false));
    assert!(!enters_entry(&[b'.', 0xff], true, false));
}

#[test]
fn walk_enters_root_directory_even_when_hidden() {
    assert!(enters_entry(b".", true, true));
    assert!(enters_entry(b".cfg", true, true));
    assert!(enters_entry(b"root", true, true));
    assert!(!enters_entry(b".cfg", false, true));
}

#[test]
fn child_path_joins_with_one_separator() {
    assert_eq!(child_path(b"/tmp/root", b"a"), b"/tmp/root/a".to_vec());
    assert_eq!(child_path(b"", b"a"), b"/a".to_vec());
    assert_eq!(child_path(&[0xfe], &[0xff]), vec![0xfe, b'/', 0xff]);
}

#[test]
fn construction_registers_each_directory_once() {
    let state = recursive_with(&[(1, "/tmp/root"), (2, "/tmp/root/a"), (3, "/tmp/root/a/c")]);
    let reg = state.registry().expect("a registry");
    assert_eq!(reg.len(), 3);
    assert_eq!(reg.path_of(1).map(|p| p.as_slice()), Some(&b"/tmp/root"[..]));
    assert_eq!(reg.path_of(2).map(|p| p.as_slice()), Some(&b"/tmp/root/a"[..]));
    assert_eq!(reg.path_of(3).map(|p| p.as_slice()), Some(&b"/tmp/root/a/c"[..]));
    assert!(!reg.contains(4));
}

#[test]
fn non_utf8_path_is_recorded() {
    let mut state = recursive_with(&[(1, "/tmp/root")]);
    state.record_watch(2, vec![b'/', 0xff]);
    let reg = state.registry().expect("a registry");
    assert_eq!(reg.len(), 2);
    assert_eq!(reg.path_of(2).map(|p| p.as_slice()), Some(&[b'/', 0xff][..]));
}

#[test]
fn batch_decides_first_event_only() {
    let state = recursive_with(&[(1, "/tmp/root")]);
    assert!(state.decide_batch(&Vec::new()).is_none());
    let batch = vec![
        event(1, false, true, false, false, Some("f")),
        event(1, true, false, false, true, Some("a")),
    ];
    let step = state.decide_batch(&batch).expect("a decision");
    assert_eq!(step.report, Report::FileDeleted);
    assert!(step.register.is_none());
}

#[test]
fn registry_replaces_entry_for_reused_handle() {
    let mut reg = WatchRegistry::new();
    reg.insert(5, b"/a".to_vec());
    reg.insert(5, b"/b".to_vec());
    assert_eq!(reg.len(), 1);
    assert_eq!(reg.path_of(5).map(|p| p.as_slice()), Some(&b"/b"[..]));
}

#[test]
fn interest_depends_on_kind() {
    let file = WatchState::for_file().interest();
    assert_eq!(file, Interest { create: false, modify: true, delete: true });
    let dir = WatchState::for_directory(Traversal::HEURISTIC).interest();
    assert_eq!(dir, Interest { create: true, modify: true, delete: true });
    assert_eq!(Interest::for_kind(WatcherType::DIRECTORY), dir);
}
