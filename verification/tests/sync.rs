//! End-to-end behaviour of the synchronization core: normalization, ignore
//! filtering, classification, archiving, and request building.

use std::io::Read;

use amp::archive::{archive, ArchiveEntry};
use amp::errors::Errors;
use amp::intent::{EventKinds, RawEventKind};
use amp::matcher::{build_matcher, is_ignored};
use amp::paths::{strip, strip_all};
use amp::request::{build_override_request, build_sync_request, dev_step, handle};

fn entry(name: &str, content: &[u8]) -> ArchiveEntry {
    ArchiveEntry { name: name.to_string(), content: content.to_vec() }
}

fn extract(bytes: &[u8]) -> Vec<(String, Vec<u8>)> {
    let mut ar = tar::Archive::new(bytes);
    let mut found = Vec::new();
    for e in ar.entries().unwrap() {
        let mut e = e.unwrap();
        let name = e.path().unwrap().to_str().unwrap().to_string();
        let mut buf = Vec::new();
        e.read_to_end(&mut buf).unwrap();
        found.push((name, buf));
    }
    found
}

#[test]
fn strip_under_root() {
    let pair = strip("/w", "/w/a.txt").unwrap();
    assert_eq!(pair.full, "/w/a.txt");
    assert_eq!(pair.relative, "a.txt");
    assert!(!pair.relative.starts_with(".."));
}

#[test]
fn strip_nested_path() {
    let pair = strip("/home/user/w", "/home/user/w/sub/dir/b.rs").unwrap();
    assert_eq!(pair.full, "/home/user/w/sub/dir/b.rs");
    assert_eq!(pair.relative, "sub/dir/b.rs");
    assert_eq!(format!("{}/{}", "/home/user/w", pair.relative), pair.full);
}

#[test]
fn strip_root_itself() {
    let pair = strip("/w", "/w").unwrap();
    assert_eq!(pair.full, "/w");
    assert_eq!(pair.relative, "");
}

#[test]
fn strip_outside_root_fails() {
    let r = strip("/w", "/other/a.txt");
    assert!(matches!(r, Err(Errors::FailedStripPrefix)));
}

#[test]
fn strip_shared_prefix_not_component_fails() {
    // "/wx" begins with "/w" but is not under it.
    let r = strip("/w", "/wx/a.txt");
    assert!(matches!(r, Err(Errors::FailedStripPrefix)));
}

#[test]
fn strip_all_batch() {
    let paths = vec!["/w/a.txt".to_string(), "/w/sub/b.txt".to_string()];
    let pairs = strip_all("/w", &paths).unwrap();
    assert_eq!(pairs.len(), 2);
    assert_eq!(pairs[0].relative, "a.txt");
    assert_eq!(pairs[1].relative, "sub/b.txt");
}

#[test]
fn strip_all_fails_on_stray_path() {
    let paths = vec!["/w/a.txt".to_string(), "/elsewhere/b.txt".to_string()];
    assert!(matches!(strip_all("/w", &paths), Err(Errors::FailedStripPrefix)));
}

#[test]
fn classify_all_raw_kinds() {
    assert_eq!(EventKinds::from(RawEventKind::CreateFile), EventKinds::Create);
    assert_eq!(EventKinds::from(RawEventKind::CreateFolder), EventKinds::Create);
    assert_eq!(EventKinds::from(RawEventKind::ModifyContent), EventKinds::Modify);
    assert_eq!(EventKinds::from(RawEventKind::ModifyName), EventKinds::Rename);
    assert_eq!(EventKinds::from(RawEventKind::RemoveFile), EventKinds::Remove);
    assert_eq!(EventKinds::from(RawEventKind::RemoveFolder), EventKinds::Remove);
    assert_eq!(EventKinds::from(RawEventKind::Other), EventKinds::Other);
}

#[test]
fn intent_wire_names() {
    assert_eq!(EventKinds::Override.to_string(), "Override");
    assert_eq!(EventKinds::Create.to_string(), "Create");
    assert_eq!(EventKinds::Modify.to_string(), "Modify");
    assert_eq!(EventKinds::Rename.to_string(), "Rename");
    assert_eq!(EventKinds::Remove.to_string(), "Remove");
    assert_eq!(EventKinds::Other.to_string(), "Other");
}

#[test]
fn unsupported_intents() {
    assert!(EventKinds::Rename.is_unsupported());
    assert!(EventKinds::Other.is_unsupported());
    assert!(!EventKinds::Override.is_unsupported());
    assert!(!EventKinds::Create.is_unsupported());
    assert!(!EventKinds::Modify.is_unsupported());
    assert!(!EventKinds::Remove.is_unsupported());
}

#[test]
fn ignored_directory_rule_suppresses_descendants() {
    let m = build_matcher("/w", &vec!["build/".to_string()]).unwrap();
    let under = vec!["/w/build/out.o".to_string()];
    assert_eq!(is_ignored(&m, "/w", &under).unwrap(), true);
    let sibling = vec!["/w/src/x.txt".to_string()];
    assert_eq!(is_ignored(&m, "/w", &sibling).unwrap(), false);
}

#[test]
fn stray_path_fails_batch_even_beside_ignored_path() {
    // All paths are normalized before the ignore decision: one path outside
    // the root fails the whole batch even when an ignored path precedes it.
    let m = build_matcher("/w", &vec!["b.log".to_string()]).unwrap();
    let paths = vec!["/w/b.log".to_string(), "/other/x.txt".to_string()];
    assert!(matches!(is_ignored(&m, "/w", &paths), Err(Errors::FailedStripPrefix)));
}

#[test]
fn ignored_fails_outside_root() {
    let m = build_matcher("/w", &vec!["build/".to_string()]).unwrap();
    let paths = vec!["/other/build/out.o".to_string()];
    assert!(matches!(is_ignored(&m, "/w", &paths), Err(Errors::FailedStripPrefix)));
}

#[test]
fn unparsable_rule_fails_the_build() {
    // An unclosed alternate group cannot be compiled; the filter must fail
    // rather than guess what to synchronize.
    let r = build_matcher("/w", &vec!["src/{ab".to_string()]);
    assert!(matches!(r, Err(Errors::InvalidIgnoreRules(_))));
}

#[test]
fn comment_and_blank_lines_carry_no_rule() {
    let lines = vec!["# generated".to_string(), "".to_string(), "b.log".to_string()];
    let m = build_matcher("/w", &lines).unwrap();
    assert_eq!(is_ignored(&m, "/w", &vec!["/w/b.log".to_string()]).unwrap(), true);
    assert_eq!(is_ignored(&m, "/w", &vec!["/w/generated".to_string()]).unwrap(), false);
}

#[test]
fn empty_rules_are_permissive() {
    let m = build_matcher("/w", &Vec::new()).unwrap();
    let paths = vec!["/w/anything.txt".to_string()];
    assert_eq!(is_ignored(&m, "/w", &paths).unwrap(), false);
}

#[test]
fn archive_round_trip() {
    let entries = vec![entry("rel/name.txt", b"payload bytes")];
    let bytes = archive(&entries).unwrap();
    let found = extract(&bytes);
    assert_eq!(found.len(), 1);
    assert_eq!(found[0].0, "rel/name.txt");
    assert_eq!(found[0].1, b"payload bytes");
}

#[test]
fn archive_refuses_traversal_entry_name() {
    // tar's header encoding rejects parent-directory segments; the batch
    // fails atomically.
    let r = archive(&vec![entry("../escape.txt", b"x")]);
    assert!(matches!(r, Err(Errors::FailedAppendPath(_))));
}

#[test]
fn archive_refuses_absolute_entry_name() {
    let r = archive(&vec![entry("/etc/passwd", b"x")]);
    assert!(matches!(r, Err(Errors::FailedAppendPath(_))));
}

#[test]
fn archive_is_deterministic() {
    let first = archive(&vec![entry("a.txt", b"hi"), entry("sub/b.txt", b"there")]).unwrap();
    let second = archive(&vec![entry("a.txt", b"hi"), entry("sub/b.txt", b"there")]).unwrap();
    assert_eq!(first, second);
}

#[test]
fn initial_sync_is_idempotent() {
    // Two walks of an unchanged workspace collect the same entries; the two
    // Override payloads must be byte-identical.
    let first = build_override_request(&vec![entry("a.txt", b"hi"), entry("sub/b.txt", b"x")])
        .unwrap();
    let second = build_override_request(&vec![entry("a.txt", b"hi"), entry("sub/b.txt", b"x")])
        .unwrap();
    assert_eq!(first.payload, second.payload);
}

#[test]
fn override_request_shape() {
    // The initial sync dispatches one request: kind Override, no path list,
    // the whole tree archived.
    let req = build_override_request(&vec![entry("a.txt", b"hi"), entry("sub/b.txt", b"x")])
        .unwrap();
    assert_eq!(req.kind, "Override");
    assert!(req.paths.is_empty());
    assert!(req.attributes.is_none());
    let found = extract(req.payload.as_ref().unwrap());
    assert_eq!(found.len(), 2);
    assert_eq!(found[0].0, "a.txt");
    assert_eq!(found[0].1, b"hi");
    assert_eq!(found[1].0, "sub/b.txt");
    assert_eq!(found[1].1, b"x");
}

#[test]
fn rename_event_produces_no_request() {
    let paths = vec!["/w/a.txt".to_string()];
    let r = handle(RawEventKind::ModifyName, "/w", &paths, &Vec::new()).unwrap();
    assert!(r.is_none());
}

#[test]
fn other_event_produces_no_request() {
    let paths = vec!["/w/a.txt".to_string()];
    let r = handle(RawEventKind::Other, "/w", &paths, &Vec::new()).unwrap();
    assert!(r.is_none());
}

#[test]
fn create_event_builds_request() {
    let paths = vec!["/w/c.txt".to_string()];
    let entries = vec![entry("c.txt", b"x")];
    let req = handle(RawEventKind::CreateFile, "/w", &paths, &entries).unwrap().unwrap();
    assert_eq!(req.kind, "Create");
    assert_eq!(req.paths, vec!["c.txt".to_string()]);
    let found = extract(req.payload.as_ref().unwrap());
    assert_eq!(found.len(), 1);
    assert_eq!(found[0].0, "c.txt");
    assert_eq!(found[0].1, b"x");
}

#[test]
fn handle_fails_outside_root() {
    let paths = vec!["/other/c.txt".to_string()];
    let r = handle(RawEventKind::CreateFile, "/w", &paths, &Vec::new());
    assert!(matches!(r, Err(Errors::FailedStripPrefix)));
}

#[test]
fn remove_request_has_no_payload() {
    let paths = vec!["/w/a.txt".to_string()];
    let pairs = strip_all("/w", &paths).unwrap();
    let req = build_sync_request(EventKinds::Remove, &pairs, &Vec::new()).unwrap();
    assert_eq!(req.kind, "Remove");
    assert_eq!(req.paths, vec!["a.txt".to_string()]);
    assert!(req.payload.is_none());
}

#[test]
fn watched_create_of_ignored_file_is_dropped() {
    // Workspace ignores b.log; creating it must not reach the wire.
    let m = build_matcher("/w", &vec!["b.log".to_string()]).unwrap();
    let paths = vec!["/w/b.log".to_string()];
    let entries = vec![entry("b.log", b"noise")];
    let r = dev_step(&m, "/w", RawEventKind::CreateFile, &paths, &entries).unwrap();
    assert!(r.is_none());
}

#[test]
fn watched_create_of_tracked_file_is_dispatched() {
    let m = build_matcher("/w", &vec!["b.log".to_string()]).unwrap();
    let paths = vec!["/w/c.txt".to_string()];
    let entries = vec![entry("c.txt", b"x")];
    let req = dev_step(&m, "/w", RawEventKind::CreateFile, &paths, &entries).unwrap().unwrap();
    assert_eq!(req.kind, "Create");
    assert_eq!(req.paths, vec!["c.txt".to_string()]);
    let found = extract(req.payload.as_ref().unwrap());
    assert_eq!(found, vec![("c.txt".to_string(), b"x".to_vec())]);
}

#[test]
fn watched_modify_is_dispatched_with_payload() {
    let m = build_matcher("/w", &Vec::new()).unwrap();
    let paths = vec!["/w/a.txt".to_string()];
    let entries = vec![entry("a.txt", b"new content")];
    let req = dev_step(&m, "/w", RawEventKind::ModifyContent, &paths, &entries).unwrap().unwrap();
    assert_eq!(req.kind, "Modify");
    assert_eq!(req.paths, vec!["a.txt".to_string()]);
    let found = extract(req.payload.as_ref().unwrap());
    assert_eq!(found, vec![("a.txt".to_string(), b"new content".to_vec())]);
}

#[test]
fn watched_remove_is_dispatched_without_payload() {
    let m = build_matcher("/w", &vec!["b.log".to_string()]).unwrap();
    let paths = vec!["/w/a.txt".to_string()];
    let req = dev_step(&m, "/w", RawEventKind::RemoveFile, &paths, &Vec::new())
        .unwrap()
        .unwrap();
    assert_eq!(req.kind, "Remove");
    assert_eq!(req.paths, vec!["a.txt".to_string()]);
    assert!(req.payload.is_none());
}

#[test]
fn watched_rename_is_dropped() {
    let m = build_matcher("/w", &Vec::new()).unwrap();
    let paths = vec!["/w/a.txt".to_string()];
    let r = dev_step(&m, "/w", RawEventKind::ModifyName, &paths, &Vec::new()).unwrap();
    assert!(r.is_none());
}

#[test]
fn error_messages_name_the_stage() {
    assert_eq!(Errors::FailedStripPrefix.message(), "Failed to strip prefix");
    assert_eq!(
        Errors::FailedAppendPath("io".to_string()).message(),
        "Failed to append path: io"
    );
    assert_eq!(Errors::FailedFinishTar("io".to_string()).message(), "Failed to finish tar: io");
    assert_eq!(
        Errors::InvalidIgnoreRules("glob".to_string()).message(),
        "Invalid ignore rules: glob"
    );
}
