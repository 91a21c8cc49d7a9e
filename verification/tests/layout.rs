use std::path::PathBuf;
use video_bridge::layout::{
    interpreter_path, script_path, INTERPRETER_DIR, INTERPRETER_FILE, SCRIPT_DIR, SCRIPT_FILE,
};

#[test]
fn layout_names_are_fixed() {
    assert_eq!(INTERPRETER_DIR, "python");
    assert_eq!(INTERPRETER_FILE, "pythonw.exe");
    assert_eq!(SCRIPT_DIR, "src-python");
    assert_eq!(SCRIPT_FILE, "video_processor.py");
}

#[test]
fn interpreter_lies_two_levels_below_the_root() {
    let root = PathBuf::from("/opt/app/resources");
    let path = interpreter_path(&root);
    assert_ne!(path, root);
    assert_eq!(path, root.join("python").join("pythonw.exe"));
    assert_eq!(path.file_name().unwrap(), "pythonw.exe");
    let dir = path.parent().unwrap();
    assert_eq!(dir.file_name().unwrap(), "python");
    assert_eq!(dir.parent().unwrap(), root.as_path());
}

#[test]
fn script_lies_two_levels_below_the_root() {
    let root = PathBuf::from("/opt/app/resources");
    let path = script_path(&root);
    assert_ne!(path, root);
    assert_eq!(path, root.join("src-python").join("video_processor.py"));
    assert_eq!(path.file_name().unwrap(), "video_processor.py");
    let dir = path.parent().unwrap();
    assert_eq!(dir.file_name().unwrap(), "src-python");
    assert_eq!(dir.parent().unwrap(), root.as_path());
}

#[test]
fn interpreter_and_script_differ() {
    let root = PathBuf::from("resources");
    assert_ne!(interpreter_path(&root), script_path(&root));
}

#[test]
fn relative_root_stays_relative() {
    let root = PathBuf::from("resources");
    let path = interpreter_path(&root);
    assert!(path.is_relative());
    assert!(path.starts_with("resources"));
    assert!(path.ends_with("python/pythonw.exe"));
}

#[test]
fn trailing_separator_adds_no_empty_part() {
    let plain = interpreter_path(&PathBuf::from("/res"));
    let slashed = interpreter_path(&PathBuf::from("/res/"));
    assert_eq!(plain, slashed);
    assert_eq!(slashed.components().count(), 4);
}

#[test]
fn empty_root_gives_the_bare_layout() {
    let root = PathBuf::new();
    assert_eq!(script_path(&root), PathBuf::from("src-python").join("video_processor.py"));
}

#[test]
fn paths_are_computed_anew_for_each_root() {
    let first = interpreter_path(&PathBuf::from("/a"));
    let second = interpreter_path(&PathBuf::from("/b"));
    assert!(first.starts_with("/a"));
    assert!(second.starts_with("/b"));
    assert_ne!(first, second);
}
