use atha::paths::{
    app_cache_dir, aur_info_url, aur_repo_url, aur_search_url, build_dir, build_root,
    command_candidates, fallback_log_path, join, log_path, state_dir, write_probe_name,
};
use atha::{history_path, require_cmd};

fn some(s: &str) -> Option<String> {
    Some(s.to_string())
}

#[test]
fn joining_paths() {
    assert_eq!(join("/a", "b"), "/a/b");
    assert_eq!(join("/a/", "b"), "/a/b");
    assert_eq!(join("", "b"), "b");
    assert_eq!(join("/a", "/b"), "/b");
}

#[test]
fn state_directory_order() {
    assert_eq!(state_dir(&some("/s"), &some("/x"), &some("/h")), "/s");
    assert_eq!(state_dir(&None, &some("/x"), &some("/h")), "/x/atha");
    assert_eq!(state_dir(&None, &None, &some("/home/u")), "/home/u/.local/state/atha");
    assert_eq!(state_dir(&None, &None, &None), ".atha");
}

#[test]
fn history_file_location() {
    assert_eq!(history_path(&some("/s"), &None, &None), "/s/history.log");
    assert_eq!(history_path(&None, &some("/x"), &None), "/x/atha/history.log");
    assert_eq!(history_path(&None, &None, &None), ".atha/history.log");
}

#[test]
fn log_file_locations() {
    assert_eq!(log_path(&some("/var/log/a.log")), "/var/log/a.log");
    assert_eq!(log_path(&None), "/tmp/atha.log");
    assert_eq!(fallback_log_path(&some("/c")), "/c/atha/atha.log");
    assert_eq!(fallback_log_path(&None), "./atha/atha.log");
    assert_eq!(app_cache_dir(&some("/c")), "/c/atha");
    assert_eq!(app_cache_dir(&None), "./atha");
}

#[test]
fn build_directories() {
    assert_eq!(build_root(&some("/b"), &some("/c")), "/b");
    assert_eq!(build_root(&None, &some("/c")), "/c/atha/build");
    assert_eq!(build_root(&None, &None), ".atha/build");
    assert_eq!(build_dir("/c/atha/build", "yay", 4242), "/c/atha/build/yay-4242");
}

#[test]
fn command_lookup_candidates() {
    let c = command_candidates(&some("/usr/bin:/bin"), "pacman");
    assert_eq!(c, vec!["/usr/bin/pacman".to_string(), "/bin/pacman".to_string()]);
    let e = command_candidates(&some(""), "git");
    assert_eq!(e, vec!["git".to_string()]);
    assert!(command_candidates(&None, "git").is_empty());
}

#[test]
fn required_commands() {
    assert_eq!(require_cmd("git", &some("/usr/bin/git")), Ok(()));
    assert_eq!(require_cmd("git", &None), Err("Command not found: git".to_string()));
}

#[test]
fn service_addresses() {
    assert_eq!(aur_repo_url("yay"), "https://aur.archlinux.org/yay.git");
    assert_eq!(aur_search_url("vim"), "https://aur.archlinux.org/rpc/v5/search/vim");
    assert_eq!(aur_info_url("yay"), "https://aur.archlinux.org/rpc/v5/info/yay");
    assert_eq!(write_probe_name(77), ".atha_write_test_77");
}
