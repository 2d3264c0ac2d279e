use atha::pacman::{
    checked_transaction_total, read_simulation, contains_str, count_nonblank_lines, elevated, install_args,
    installed_size, makepkg_args, parse_transaction, pending_updates, remove_args,
    simulation_args, transaction_total, update_args, update_entries,
};

fn sv(v: &[&str]) -> Vec<String> {
    v.iter().map(|s| s.to_string()).collect()
}

#[test]
fn transaction_rows_are_read_from_print_format_lines() {
    let text = "vim|1234\nvim-runtime| 5678 \nnot a row\nbad|x\nlibx|12|34\n";
    let rows = parse_transaction(text).unwrap();
    assert_eq!(
        rows,
        vec![("vim".to_string(), 1234), ("vim-runtime".to_string(), 5678)]
    );
    assert_eq!(transaction_total(&rows), 6912);
}

#[test]
fn a_transaction_without_rows_is_none() {
    assert_eq!(parse_transaction(""), None);
    assert_eq!(parse_transaction("loading packages...\nerror: target not found: x\n"), None);
}

#[test]
fn totals_that_overflow_are_detected() {
    let rows = vec![("a".to_string(), u64::MAX), ("b".to_string(), 1)];
    assert_eq!(checked_transaction_total(&rows), None);
    let rows = vec![("a".to_string(), 40), ("b".to_string(), 2)];
    assert_eq!(checked_transaction_total(&rows), Some(42));
}

#[test]
fn membership() {
    let v = sv(&["vim", "git"]);
    assert!(contains_str(&v, "git"));
    assert!(!contains_str(&v, "gi"));
}

#[test]
fn installed_size_line() {
    let text = "Name            : vim\nInstalled Size  : 3.50 MiB\nPackager        : x\n";
    assert_eq!(installed_size(text), Some("3.50 MiB".to_string()));
    assert_eq!(installed_size("Name : vim\n"), None);
    assert_eq!(installed_size("Installed Size\n"), None);
}

#[test]
fn counting_lines_and_pending_updates() {
    assert_eq!(count_nonblank_lines("a\n\n  \nb\n"), 2);
    let (text, n) = pending_updates("linux 6.1-1 -> 6.2-1\nvim 9.0-1 -> 9.1-1\n\n");
    assert_eq!(text, "linux 6.1-1 -> 6.2-1\nvim 9.0-1 -> 9.1-1");
    assert_eq!(n, 2);
    assert_eq!(pending_updates("  \n"), (String::new(), 0));
}

#[test]
fn update_entries_need_four_words() {
    let e = update_entries("linux 6.1-1 -> 6.2-1\nshort line\nvim 9.0 -> 9.1 [ignored]\n");
    assert_eq!(
        e,
        vec![
            ("linux".to_string(), "6.1-1".to_string(), "6.2-1".to_string()),
            ("vim".to_string(), "9.0".to_string(), "9.1".to_string()),
        ]
    );
}

#[test]
fn pacman_arguments() {
    assert_eq!(simulation_args(false, &vec![]), None);
    assert_eq!(
        simulation_args(false, &sv(&["vim"])),
        Some(sv(&["-S", "--print", "--print-format", "%n|%s", "vim"]))
    );
    assert_eq!(
        simulation_args(true, &sv(&["vim", "git"])),
        Some(sv(&["-Rns", "--print", "--print-format", "%n|%s", "vim", "git"]))
    );
    assert_eq!(install_args(&sv(&["a", "b"]), false), sv(&["-S", "--needed", "a", "b"]));
    assert_eq!(install_args(&sv(&["a"]), true), sv(&["-S", "--needed", "a", "--noconfirm"]));
    assert_eq!(remove_args(&sv(&["a"]), true), sv(&["-Rns", "a", "--noconfirm"]));
    assert_eq!(update_args(false), sv(&["-Syu"]));
    assert_eq!(update_args(true), sv(&["-Syu", "--noconfirm"]));
    assert_eq!(makepkg_args(false), sv(&["-si"]));
    assert_eq!(makepkg_args(true), sv(&["-si", "--noconfirm"]));
}

#[test]
fn root_rights_through_sudo() {
    let args = sv(&["-Syu"]);
    assert_eq!(elevated("pacman", &args, true, true), ("sudo".to_string(), sv(&["--", "pacman", "-Syu"])));
    assert_eq!(elevated("pacman", &args, true, false), ("pacman".to_string(), args.clone()));
    assert_eq!(elevated("git", &args, false, true), ("git".to_string(), args.clone()));
}

#[test]
fn simulations_are_read_only_from_a_successful_run() {
    let text = "vim|1024\nlib|2048\n".to_string();
    assert_eq!(
        read_simulation(&Some((true, text.clone()))),
        Some(vec![("vim".to_string(), 1024), ("lib".to_string(), 2048)])
    );
    assert_eq!(read_simulation(&Some((false, text))), None);
    assert_eq!(read_simulation(&None), None);
    assert_eq!(read_simulation(&Some((true, "nothing here\n".to_string()))), None);
}
