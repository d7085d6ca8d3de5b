use mictils::probe::exists_verdict;
use mictils::SymlinkExists;
use std::path::PathBuf;

#[test]
fn verdict_absent_path_is_false() {
    assert!(!exists_verdict(false, false, false));
}

#[test]
fn verdict_regular_entry_is_true() {
    assert!(exists_verdict(true, false, true));
}

#[test]
fn verdict_live_symlink_is_true() {
    assert!(exists_verdict(true, true, true));
}

#[test]
fn verdict_dangling_symlink_is_true() {
    assert!(exists_verdict(true, true, false));
}

#[test]
fn verdict_needs_the_entry_itself() {
    assert!(!exists_verdict(false, false, true));
}

#[test]
fn exists_symlink_missing_path() {
    let path = PathBuf::from("/surely/no/such/entry/anywhere");

    assert!(!path.exists_symlink());
}

#[test]
fn exists_symlink_regular_file() {
    let path = PathBuf::from("/etc/passwd");

    assert!(path.exists_symlink());
}

#[test]
fn exists_symlink_directory() {
    let path = PathBuf::from("/");

    assert!(path.exists_symlink());
}

#[test]
fn exists_symlink_live_symlink() {
    let path = PathBuf::from("/proc/self");

    assert!(path.exists_symlink());
}
