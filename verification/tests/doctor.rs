use atha::doctor::{core_tools, doctor_report, hosts};
use atha::report::Effect;

fn lines_of_report(v: &[Effect]) -> Vec<String> {
    v.iter()
        .map(|e| match e {
            Effect::Show(l) => format!("{:?}: {}", l.tone, l.text),
            Effect::Log(m) => format!("Log: {m}"),
            Effect::Record(r) => format!("Record: {}", r.action),
        })
        .collect()
}

#[test]
fn checked_tools_and_hosts() {
    assert_eq!(core_tools(), vec!["pacman", "sudo", "git", "makepkg"]);
    assert_eq!(hosts(), vec!["archlinux.org", "aur.archlinux.org"]);
}

#[test]
fn healthy_system() {
    let (e, r) = doctor_report(&vec![true; 4], false, "/c/atha", true, "/s", true, &vec![true, true]);
    assert_eq!(r, Ok(()));
    assert_eq!(
        lines_of_report(&e),
        vec![
            "Log: Doctor check requested",
            "Section: Core tools check",
            "Success: pacman OK",
            "Log: Doctor: pacman OK",
            "Success: sudo OK",
            "Log: Doctor: sudo OK",
            "Success: git OK",
            "Log: Doctor: git OK",
            "Success: makepkg OK",
            "Log: Doctor: makepkg OK",
            "Plain: ",
            "Section: Runtime checks",
            "Success: pacman database lock not present",
            "Success: Cache directory writable: /c/atha",
            "Success: State directory writable: /s",
            "Plain: ",
            "Section: Connectivity checks",
            "Success: DNS reachable: archlinux.org",
            "Success: DNS reachable: aur.archlinux.org",
            "Plain: ",
            "Success: Doctor check completed (healthy)",
        ]
    );
}

#[test]
fn warnings_do_not_fail_the_check() {
    let (e, r) = doctor_report(&vec![true; 4], true, "/c", false, "/s", true, &vec![false, true]);
    assert_eq!(r, Ok(()));
    let l = lines_of_report(&e);
    assert!(l.contains(&"Warn: pacman database lock exists (/var/lib/pacman/db.lck)".to_string()));
    assert!(l.contains(&"Warn: Cache directory not writable: /c".to_string()));
    assert!(l.contains(&"Warn: DNS unresolved: archlinux.org".to_string()));
    assert_eq!(l.last().unwrap(), "Warn: Doctor completed with 3 warning(s)");
}

#[test]
fn missing_tools_fail_the_check() {
    let (e, r) = doctor_report(&vec![true, false, true, false], false, "/c", true, "/s", false, &vec![true, true]);
    assert_eq!(r, Err("Doctor found 2 missing dependencies".to_string()));
    let l = lines_of_report(&e);
    assert!(l.contains(&"Warn: sudo missing".to_string()));
    assert!(l.contains(&"Log: Doctor: makepkg missing".to_string()));
    assert_eq!(l.last().unwrap(), "Warn: Doctor found 2 missing dependency(ies) and 1 warning(s)");
}
