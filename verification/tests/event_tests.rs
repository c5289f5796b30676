use savesync::event::Classification;
use savesync::event::EventKind;
use savesync::event::RawEvent;
use savesync::event::classify;

fn single(kind: EventKind, path: &str, is_dir: bool) -> RawEvent {
    RawEvent { kind, paths: vec![path.to_string()], is_dir }
}

fn relevant_path(c: Classification) -> Option<String> {
    match c {
        Classification::Relevant(p) => Some(p),
        Classification::Ignored => None,
    }
}

#[test]
fn created_file_is_relevant() {
    let c = classify(&single(EventKind::Created, "/a/x/y.txt", false));
    assert_eq!(relevant_path(c), Some("/a/x/y.txt".to_string()));
}

#[test]
fn written_file_is_relevant() {
    let c = classify(&single(EventKind::Written, "/a/save.srm", false));
    assert_eq!(relevant_path(c), Some("/a/save.srm".to_string()));
}

#[test]
fn removed_is_ignored() {
    let c = classify(&single(EventKind::Removed, "/a/x", false));
    assert!(relevant_path(c).is_none());
}

#[test]
fn renamed_is_ignored() {
    let c = classify(&single(EventKind::Renamed, "/a/x", false));
    assert!(relevant_path(c).is_none());
}

#[test]
fn other_kind_is_ignored() {
    let c = classify(&single(EventKind::Other, "/a/x", false));
    assert!(relevant_path(c).is_none());
}

#[test]
fn created_directory_is_ignored() {
    let c = classify(&single(EventKind::Created, "/a/newdir", true));
    assert!(relevant_path(c).is_none());
}

#[test]
fn written_directory_is_ignored() {
    let c = classify(&single(EventKind::Written, "/a/newdir", true));
    assert!(relevant_path(c).is_none());
}

#[test]
fn multi_path_event_is_ignored() {
    let e = RawEvent {
        kind: EventKind::Created,
        paths: vec!["/a/x".to_string(), "/a/y".to_string()],
        is_dir: false,
    };
    assert!(relevant_path(classify(&e)).is_none());
}

#[test]
fn pathless_event_is_ignored() {
    let e = RawEvent { kind: EventKind::Written, paths: vec![], is_dir: false };
    assert!(relevant_path(classify(&e)).is_none());
}
