use savesync::paths::relativize;

#[test]
fn relativize_strictly_under() {
    assert_eq!(
        relativize("/a", "/a/x/y.txt"),
        Some("x/y.txt".to_string())
    );
}

#[test]
fn relativize_single_segment() {
    assert_eq!(relativize("/a", "/a/save.srm"), Some("save.srm".to_string()));
}

#[test]
fn relativize_deep_path() {
    assert_eq!(
        relativize("/home/user/saves", "/home/user/saves/snes/zelda/game.srm"),
        Some("snes/zelda/game.srm".to_string())
    );
}

#[test]
fn relativize_hidden_file() {
    assert_eq!(
        relativize("/a", "/a/.config/save.dat"),
        Some(".config/save.dat".to_string())
    );
}

#[test]
fn relativize_outside_root() {
    assert_eq!(relativize("/a", "/b/x"), None);
}

#[test]
fn relativize_root_itself() {
    assert_eq!(relativize("/a", "/a"), None);
}

#[test]
fn relativize_sibling_with_common_prefix() {
    assert_eq!(relativize("/a", "/ab/x"), None);
}

#[test]
fn relativize_rejects_dot_segment() {
    assert_eq!(relativize("/a", "/a/./x"), None);
}

#[test]
fn relativize_rejects_parent_segment() {
    assert_eq!(relativize("/a", "/a/../x"), None);
}

#[test]
fn relativize_rejects_double_separator() {
    assert_eq!(relativize("/a", "/a/x//y"), None);
}

#[test]
fn relativize_rejects_trailing_separator() {
    assert_eq!(relativize("/a", "/a/x/"), None);
}

#[test]
fn relativize_relative_path_rejected() {
    assert_eq!(relativize("/a", "a/x"), None);
}

#[test]
fn relativize_join_restores_path() {
    let root = "/home/user/saves";
    let p = "/home/user/saves/gba/pokemon.sav";
    let rel = relativize(root, p).unwrap();
    assert_eq!(format!("{}/{}", root, rel), p);
}
