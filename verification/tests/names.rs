use atha::names::validate_packages;
use atha::{valid_pkg, ListType};

#[test]
fn valid_names() {
    assert!(valid_pkg("firefox"));
    assert!(valid_pkg("lib32-glibc"));
    assert!(valid_pkg("python3.11"));
    assert!(valid_pkg("gtk+"));
    assert!(valid_pkg("foo_bar@git"));
}

#[test]
fn invalid_names() {
    assert!(!valid_pkg(""));
    assert!(!valid_pkg("foo bar"));
    assert!(!valid_pkg("foo/bar"));
    assert!(!valid_pkg("rm;ls"));
    assert!(!valid_pkg("café"));
}

#[test]
fn validation_reports_the_first_invalid_name() {
    let ok = vec!["vim".to_string(), "git".to_string()];
    assert_eq!(validate_packages(&ok), Ok(()));
    let bad = vec!["vim".to_string(), "a b".to_string(), "c$".to_string()];
    assert_eq!(validate_packages(&bad), Err("Invalid package name: a b".to_string()));
}

#[test]
fn list_kinds() {
    assert_eq!(ListType::Installed.label(), "installed");
    assert_eq!(ListType::Explicit.label(), "explicit");
    assert_eq!(ListType::Aur.label(), "aur");
    assert_eq!(ListType::All.label(), "all");
    assert_eq!(ListType::Installed.pacman_flag(), "-Q");
    assert_eq!(ListType::Explicit.pacman_flag(), "-Qe");
    assert_eq!(ListType::Aur.pacman_flag(), "-Qm");
    assert_eq!(ListType::All.pacman_flag(), "-Sl");
    assert!(ListType::All.paginated());
    assert!(!ListType::Aur.paginated());
}
