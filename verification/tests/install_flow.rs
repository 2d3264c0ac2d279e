use atha::flow::{Event, Request};
use atha::install::{classify_install, install_counts_text};
use atha::install_run::{InstallRun, InstallStage};
use atha::report::Effect;

fn strings(v: &[&str]) -> Vec<String> {
    v.iter().map(|s| s.to_string()).collect()
}

fn effect_text(e: &Effect) -> String {
    match e {
        Effect::Show(l) => format!("{:?}: {}", l.tone, l.text),
        Effect::Log(m) => format!("Log: {m}"),
        Effect::Record(r) => format!(
            "Record: {}|{}|{}|{}|{}",
            r.action, r.target, r.source, r.status, r.detail
        ),
    }
}

fn request_text(r: &Request) -> String {
    match r {
        Request::Locate(n) => format!("Locate {n}"),
        Request::Query(a) => format!("Query {}", a.join(" ")),
        Request::Capture(p, a) => format!("Capture {p} {}", a.join(" ")),
        Request::Probe(u) => format!("Probe {u}"),
        Request::Confirm(q) => format!("Confirm {q}"),
        Request::Inspect(p, a) => format!("Inspect {p} {}", a.join(" ")),
        Request::ShowOutput => "ShowOutput".to_string(),
        Request::FetchInfo(u) => format!("FetchInfo {u}"),
        Request::FetchSearch(u) => format!("FetchSearch {u}"),
        Request::Execute(p, a, sudo, cwd, show) => {
            format!("Execute {p} {} sudo={sudo} cwd={cwd:?} show={show}", a.join(" "))
        }
        Request::PrepareBuild(p) => format!("PrepareBuild {p}"),
        Request::Cleanup => "Cleanup".to_string(),
        Request::Finish(Ok(())) => "Finish ok".to_string(),
        Request::Finish(Err(m)) => format!("Finish error: {m}"),
    }
}

/// Feeds the events in order; returns every effect and every request.
fn play(mut run: InstallRun, events: Vec<Event>) -> (Vec<String>, Vec<String>) {
    let mut effects = Vec::new();
    let mut requests = Vec::new();
    for ev in events {
        assert!(run.accepts(&ev));
        let (e, r) = run.step(ev);
        effects.extend(e.iter().map(effect_text));
        requests.push(request_text(&r));
    }
    (effects, requests)
}

#[test]
fn classification_of_packages() {
    let pkgs = strings(&["git", "vim", "yay"]);
    let split = classify_install(&pkgs, &vec![true, false, false], &vec![false, true, false]);
    assert_eq!(split.skip, strings(&["git"]));
    assert_eq!(split.official, strings(&["vim"]));
    assert_eq!(split.aur, strings(&["yay"]));
    assert_eq!(install_counts_text(1, 1, 1), "install=2 official=1 aur=1 skip=1");
}

#[test]
fn plan_mode_simulates_and_changes_nothing() {
    let run = InstallRun::new(strings(&["vim", "yay", "git"]), true, false, false);
    let (effects, requests) = play(
        run,
        vec![
            Event::Start,
            Event::Located(true),
            Event::Status(false),
            Event::Status(true),
            Event::Status(false),
            Event::Status(false),
            Event::Status(true),
            Event::Captured(Some((true, "vim|2048\nlibfoo|1024\n".to_string()))),
            Event::Status(true),
        ],
    );
    assert_eq!(
        requests,
        strings(&[
            "Locate pacman",
            "Query -Qi vim",
            "Query -Si vim",
            "Query -Qi yay",
            "Query -Si yay",
            "Query -Qi git",
            "Capture pacman -S --print --print-format %n|%s vim",
            "Probe https://aur.archlinux.org/yay.git",
            "Finish ok",
        ])
    );
    assert_eq!(
        effects,
        strings(&[
            "Log: Install requested for packages: vim yay git",
            "Section: PLAN: Decision Analysis",
            "Plain:   - git -> skip",
            "Plain:     reason: already installed",
            "Plain:   - vim -> install from official",
            "Plain:     reason: found in official repositories",
            "Plain:   - yay -> install from AUR",
            "Plain:     reason: not found in official repositories, fallback to AUR workflow",
            "Section: PLAN: Official Transaction Simulation",
            "Info: Packages in transaction (requested + dependencies): 2",
            "Info: Estimated download size: 3.00 KiB",
            "Plain:   - vim (2.00 KiB, requested)",
            "Plain:   - libfoo (1.00 KiB, dependency)",
            "Section: PLAN: AUR Reachability",
            "Success: yay repository reachable",
            "Section: PLAN: Summary",
            "Info: install=2 official=1 aur=1 skip=1",
            "Record: install|git|installed|skipped|plan:already installed",
            "Record: install|vim|official|planned|plan:found in official repositories",
            "Record: install|yay|aur|planned|plan:not found in official repositories",
            "Plain: ",
            "Success: Plan completed (no changes applied)",
        ])
    );
}

#[test]
fn plan_mode_reports_a_failed_simulation() {
    let run = InstallRun::new(strings(&["vim"]), true, false, false);
    let (effects, requests) = play(
        run,
        vec![
            Event::Start,
            Event::Located(true),
            Event::Status(false),
            Event::Status(true),
            Event::Captured(None),
        ],
    );
    assert_eq!(requests.last().unwrap(), "Finish ok");
    assert!(effects.contains(&"Warn: Unable to simulate official transaction".to_string()));
    assert!(!requests.iter().any(|r| r.starts_with("Execute") || r.starts_with("Confirm")));
}

#[test]
fn plan_mode_refuses_a_transaction_whose_total_overflows() {
    let mut run = InstallRun::new(strings(&["vim"]), true, false, false);
    for ev in [Event::Start, Event::Located(true), Event::Status(false), Event::Status(true)] {
        let _ = run.step(ev);
    }
    assert_eq!(run.stage(), InstallStage::Simulated);
    let text = format!("a|{}\nb|1\n", u64::MAX);
    assert!(!run.accepts(&Event::Captured(Some((true, text)))));
    assert!(run.accepts(&Event::Captured(Some((true, "a|1\n".to_string())))));
}

#[test]
fn dry_run_lists_the_commands() {
    let run = InstallRun::new(strings(&["vim", "yay", "git"]), false, true, true);
    let (effects, requests) = play(
        run,
        vec![
            Event::Start,
            Event::Located(true),
            Event::Status(false),
            Event::Status(true),
            Event::Status(false),
            Event::Status(false),
            Event::Status(true),
        ],
    );
    assert_eq!(requests.last().unwrap(), "Finish ok");
    assert_eq!(
        effects,
        strings(&[
            "Log: Install requested for packages: vim yay git",
            "Log: Install dry-run requested for packages: vim yay git",
            "Section: DRY-RUN: Execution Simulation",
            "Info: No package changes will be applied",
            "Warn: git -> already installed (skip)",
            "Record: install|git|installed|skipped|dry-run:already installed",
            "Info: vim -> would execute: sudo pacman -S vim",
            "Record: install|vim|official|planned|dry-run:found in official repositories",
            "Info: yay -> would execute: git clone https://aur.archlinux.org/yay.git && makepkg -si --noconfirm",
            "Record: install|yay|aur|planned|dry-run:not found in official repositories",
            "Plain: ",
            "Info: Execution summary: install=2 official=1 aur=1 skip=1",
            "Success: Dry-run completed (no changes applied)",
        ])
    );
}

#[test]
fn a_confirmed_install_builds_aur_packages() {
    let run = InstallRun::new(strings(&["vim", "yay"]), false, false, false);
    let (effects, requests) = play(
        run,
        vec![
            Event::Start,
            Event::Located(true),
            Event::Status(false),
            Event::Status(true),
            Event::Status(false),
            Event::Status(false),
            Event::Answer(Ok("y\n".to_string())),
            Event::Ran(Ok(true)),
            Event::Located(true),
            Event::Located(true),
            Event::Dir("/b/yay-7".to_string()),
            Event::Ran(Ok(true)),
            Event::Ran(Ok(true)),
            Event::Ack,
        ],
    );
    assert_eq!(
        requests,
        strings(&[
            "Locate pacman",
            "Query -Qi vim",
            "Query -Si vim",
            "Query -Qi yay",
            "Query -Si yay",
            "Confirm Proceed with installation? (y/N) ",
            "Execute pacman -S --needed vim sudo=true cwd=None show=true",
            "Locate git",
            "Locate makepkg",
            "PrepareBuild yay",
            "Execute git clone https://aur.archlinux.org/yay.git /b/yay-7 sudo=false cwd=None show=false",
            "Execute makepkg -si sudo=false cwd=Some(\"/b/yay-7\") show=false",
            "Cleanup",
            "Finish ok",
        ])
    );
    assert_eq!(
        effects,
        strings(&[
            "Log: Install requested for packages: vim yay",
            "Section: Execution Plan",
            "Info: Official repo targets: vim",
            "Info: AUR targets: yay",
            "Plain: ",
            "Info: Summary: install=2 official=1 aur=1 skip=0",
            "Info: Installing official packages: vim",
            "Log: Executing batch install for official packages: vim",
            "Success: vim installed",
            "Log: Install success: vim",
            "Record: install|vim|official|success|",
            "Info: Installing yay from AUR",
            "Log: Source detected for yay: aur",
            "Log: AUR build directory: /b/yay-7",
            "Success: yay installed",
            "Log: Install success: yay",
            "Record: install|yay|aur|success|",
            "Plain: ",
            "Success: Install process completed",
        ])
    );
}

#[test]
fn declining_cancels_the_install() {
    let run = InstallRun::new(strings(&["vim"]), false, false, false);
    let (effects, requests) = play(
        run,
        vec![
            Event::Start,
            Event::Located(true),
            Event::Status(false),
            Event::Status(true),
            Event::Answer(Ok("no\n".to_string())),
        ],
    );
    assert_eq!(requests.last().unwrap(), "Finish ok");
    assert_eq!(
        effects[effects.len() - 3..].to_vec(),
        strings(&[
            "Info: Operation cancelled",
            "Log: Install cancelled by user for packages: vim",
            "Record: install|vim|official|cancelled|user-cancel",
        ])
    );
}

#[test]
fn failures_end_the_install_with_their_error() {
    // pacman missing
    let (_, r) = play(InstallRun::new(strings(&["vim"]), false, false, true), vec![Event::Start, Event::Located(false)]);
    assert_eq!(r.last().unwrap(), "Finish error: Command not found: pacman");
    // invalid name
    let (_, r) = play(
        InstallRun::new(strings(&["vim", "bad name"]), false, false, true),
        vec![Event::Start, Event::Located(true)],
    );
    assert_eq!(r.last().unwrap(), "Finish error: Invalid package name: bad name");
    // pacman fails
    let (e, r) = play(
        InstallRun::new(strings(&["vim"]), false, false, true),
        vec![Event::Start, Event::Located(true), Event::Status(false), Event::Status(true), Event::Ran(Ok(false))],
    );
    assert_eq!(r.last().unwrap(), "Finish error: Failed to install official packages");
    assert_eq!(e.last().unwrap(), "Record: install|vim|official|failed|pacman batch failure");
    // git clone fails
    let (e, r) = play(
        InstallRun::new(strings(&["yay"]), false, false, true),
        vec![
            Event::Start,
            Event::Located(true),
            Event::Status(false),
            Event::Status(false),
            Event::Located(true),
            Event::Located(true),
            Event::Dir("/b/yay-1".to_string()),
            Event::Ran(Ok(false)),
            Event::Ack,
        ],
    );
    assert_eq!(r[r.len() - 2], "Cleanup");
    assert_eq!(r.last().unwrap(), "Finish error: Failed to clone AUR package: yay");
    assert_eq!(e.last().unwrap(), "Record: install|yay|aur|failed|git clone failed");
    // makepkg fails
    let (e, r) = play(
        InstallRun::new(strings(&["yay"]), false, false, true),
        vec![
            Event::Start,
            Event::Located(true),
            Event::Status(false),
            Event::Status(false),
            Event::Located(true),
            Event::Located(true),
            Event::Dir("/b/yay-1".to_string()),
            Event::Ran(Ok(true)),
            Event::Ran(Ok(false)),
            Event::Ack,
        ],
    );
    assert_eq!(r[r.len() - 2], "Cleanup");
    assert_eq!(r.last().unwrap(), "Finish error: Failed install yay");
    assert_eq!(e.last().unwrap(), "Record: install|yay|aur|failed|makepkg");
    // git missing
    let (_, r) = play(
        InstallRun::new(strings(&["yay"]), false, false, true),
        vec![Event::Start, Event::Located(true), Event::Status(false), Event::Status(false), Event::Located(false)],
    );
    assert_eq!(r.last().unwrap(), "Finish error: Command not found: git");
}

#[test]
fn nothing_to_install_when_everything_is_installed() {
    let (e, r) = play(
        InstallRun::new(strings(&["vim"]), false, false, false),
        vec![Event::Start, Event::Located(true), Event::Status(true)],
    );
    assert_eq!(r.last().unwrap(), "Finish ok");
    assert_eq!(
        e,
        strings(&[
            "Log: Install requested for packages: vim",
            "Section: Execution Plan",
            "Warn: Skipped (already installed): vim",
            "Plain: ",
            "Info: Summary: install=0 official=0 aur=0 skip=1",
            "Warn: Nothing to install",
        ])
    );
}

#[test]
fn the_build_directory_is_removed_when_git_cannot_start() {
    let (e, r) = play(
        InstallRun::new(strings(&["yay"]), false, false, true),
        vec![
            Event::Start,
            Event::Located(true),
            Event::Status(false),
            Event::Status(false),
            Event::Located(true),
            Event::Located(true),
            Event::Dir("/b/yay-2".to_string()),
            Event::Ran(Err("No such file or directory (os error 2)".to_string())),
            Event::Ack,
        ],
    );
    assert_eq!(
        r[r.len() - 3..].to_vec(),
        strings(&[
            "Execute git clone https://aur.archlinux.org/yay.git /b/yay-2 sudo=false cwd=None show=false",
            "Cleanup",
            "Finish error: No such file or directory (os error 2)",
        ])
    );
    assert_eq!(e.last().unwrap(), "Log: AUR build directory: /b/yay-2");
}
