use savesync::Config;
use savesync::sync::CopyPlan;
use savesync::sync::FileState;
use savesync::sync::bootstrap;
use savesync::sync::copy_to_dest;
use savesync::sync::mirror_file;
use savesync::sync::rsync_args;

fn config(src: &str, dest: &str, boot: bool) -> Config {
    Config { src: src.to_string(), dest: dest.to_string(), bootstrap: boot }
}

fn strings(args: &[String]) -> Vec<&str> {
    args.iter().map(|s| s.as_str()).collect()
}

#[test]
fn rsync_args_exact() {
    let args = rsync_args(&config("/a", "/b", false), "x/y.txt");
    assert_eq!(
        strings(&args),
        vec!["--archive", "--update", "--relative", "/a/./x/y.txt", "/b"]
    );
}

#[test]
fn rsync_args_root_with_trailing_separator() {
    let args = rsync_args(&config("/a/", "/b", false), "x");
    assert_eq!(
        strings(&args),
        vec!["--archive", "--update", "--relative", "/a/./x", "/b"]
    );
}

#[test]
fn bootstrap_is_whole_tree() {
    let args = bootstrap(&config("/a", "/b", true));
    assert_eq!(
        strings(&args),
        vec!["--archive", "--update", "--relative", "/a/./", "/b"]
    );
}

#[test]
fn copy_to_dest_file_under_root() {
    let r = copy_to_dest(&config("/a", "/b", false), "/a/x/y.txt", false);
    match r {
        CopyPlan::Sync(q) => assert_eq!(q.rel_path, "x/y.txt"),
        _ => panic!("expected a sync request"),
    }
}

#[test]
fn copy_to_dest_skips_directory() {
    let r = copy_to_dest(&config("/a", "/b", false), "/a/x", true);
    assert!(matches!(r, CopyPlan::Skip));
}

#[test]
fn copy_to_dest_path_outside_root_is_violation() {
    let r = copy_to_dest(&config("/a", "/b", false), "/elsewhere/y.txt", false);
    assert!(matches!(r, CopyPlan::PathViolation));
}

fn file(mtime: u64, data: &[u8]) -> FileState {
    FileState { mtime, data: data.to_vec() }
}

#[test]
fn mirror_copies_into_empty_destination() {
    let r = mirror_file(file(10, b"abc"), None);
    assert_eq!(r.mtime, 10);
    assert_eq!(r.data, b"abc".to_vec());
}

#[test]
fn mirror_is_idempotent() {
    let first = mirror_file(file(10, b"abc"), None);
    let second = mirror_file(file(10, b"abc"), Some(first));
    assert_eq!(second.mtime, 10);
    assert_eq!(second.data, b"abc".to_vec());
}

#[test]
fn mirror_never_overwrites_newer_destination() {
    let r = mirror_file(file(10, b"old source"), Some(file(20, b"newer dest")));
    assert_eq!(r.mtime, 20);
    assert_eq!(r.data, b"newer dest".to_vec());
}

#[test]
fn mirror_overwrites_older_destination() {
    let r = mirror_file(file(30, b"new"), Some(file(20, b"stale")));
    assert_eq!(r.mtime, 30);
    assert_eq!(r.data, b"new".to_vec());
}

#[test]
fn mirror_equal_times_equal_sizes_keeps_destination() {
    let r = mirror_file(file(10, b"abc"), Some(file(10, b"xyz")));
    assert_eq!(r.data, b"xyz".to_vec());
}

#[test]
fn mirror_equal_times_different_sizes_copies() {
    let r = mirror_file(file(10, b"abcd"), Some(file(10, b"xyz")));
    assert_eq!(r.data, b"abcd".to_vec());
}
