use coderlm_server::config::{should_ignore_dir, should_ignore_extension};

#[test]
fn test_should_ignore_dir_common() {
    assert!(should_ignore_dir("node_modules"));
    assert!(should_ignore_dir("target"));
    assert!(should_ignore_dir(".git"));
    assert!(should_ignore_dir("__pycache__"));
    assert!(should_ignore_dir("dist"));
}

#[test]
fn test_should_ignore_dir_normal() {
    assert!(!should_ignore_dir("src"));
    assert!(!should_ignore_dir("lib"));
    assert!(!should_ignore_dir("tests"));
}

#[test]
fn test_should_ignore_extension_binary() {
    assert!(should_ignore_extension("foo.min.js"));
    assert!(should_ignore_extension("bar.pyc"));
    assert!(should_ignore_extension("lib.o"));
    assert!(should_ignore_extension("archive.zip"));
    assert!(should_ignore_extension("image.png"));
}

#[test]
fn test_should_ignore_extension_source() {
    assert!(!should_ignore_extension("main.rs"));
    assert!(!should_ignore_extension("lib.py"));
    assert!(!should_ignore_extension("index.js"));
    assert!(!should_ignore_extension("style.css"));
    assert!(!should_ignore_extension("page.html"));
}

#[test]
fn test_should_ignore_extension_path_with_slashes() {
    assert!(should_ignore_extension("dist/bundle.min.js"));
    assert!(!should_ignore_extension("src/main.rs"));
}
