use minetest::key_event::KeyEvent;
use minetest::paths::{file_extension_from_path, file_name_from_path, PathError};
use std::path::Path;

#[test]
fn key_event_up_and_down() {
    assert!(KeyEvent::LiftedOff.is_up());
    assert!(!KeyEvent::LiftedOff.is_down());
    assert!(KeyEvent::PressingDown.is_down());
    assert!(!KeyEvent::PressingDown.is_up());
}

#[test]
fn file_name_of_plain_paths() {
    assert_eq!(file_name_from_path("textures/stone.png", true), Ok("stone.png".to_string()));
    assert_eq!(file_name_from_path("stone.png", true), Ok("stone.png".to_string()));
    assert_eq!(file_name_from_path("/usr/share/minetest/", true), Ok("minetest".to_string()));
    assert_eq!(file_name_from_path("a//b", true), Ok("b".to_string()));
    assert_eq!(file_name_from_path("a/b/.", true), Ok("b".to_string()));
    assert_eq!(file_name_from_path(".hidden", true), Ok(".hidden".to_string()));
}

#[test]
fn file_name_absent() {
    assert_eq!(file_name_from_path("", true), Err(PathError::NoFileName));
    assert_eq!(file_name_from_path("/", true), Err(PathError::NoFileName));
    assert_eq!(file_name_from_path(".", true), Err(PathError::NoFileName));
    assert_eq!(file_name_from_path("..", true), Err(PathError::NoFileName));
    assert_eq!(file_name_from_path("a/..", true), Err(PathError::NoFileName));
    assert_eq!(file_name_from_path("./", true), Err(PathError::NoFileName));
}

#[test]
fn file_name_of_missing_path() {
    assert_eq!(file_name_from_path("stone.png", false), Err(PathError::Missing));
}

#[test]
fn extension_cases() {
    assert_eq!(file_extension_from_path("textures/stone.png"), Some("png"));
    assert_eq!(file_extension_from_path("world.tar.gz"), Some("gz"));
    assert_eq!(file_extension_from_path("name."), Some(""));
    assert_eq!(file_extension_from_path(".bashrc"), None);
    assert_eq!(file_extension_from_path("a.d/file"), None);
    assert_eq!(file_extension_from_path("dir.d/"), Some("d"));
    assert_eq!(file_extension_from_path(".."), None);
}

#[test]
fn paths_agree_with_std() {
    let cases = [
        "", "/", ".", "..", "a", "a/", "a/b", "a/b/", "a//b", "/a/b.c", "./a", "a/.", "a/./",
        "a/..", "../a", "..a", ".a", ".a.b", "a.b.c", "a.", "/.", "./.", "a/b/./", "x/..y",
        "dir/.hidden", "dir/.hidden.txt", "ä/ö.ü",
    ];
    for p in cases {
        let expected_name = Path::new(p).file_name().map(|n| n.to_str().unwrap().to_string());
        assert_eq!(file_name_from_path(p, true).ok(), expected_name, "file name of {:?}", p);
        let expected_ext = Path::new(p).extension().map(|e| e.to_str().unwrap());
        assert_eq!(file_extension_from_path(p), expected_ext, "extension of {:?}", p);
    }
}
