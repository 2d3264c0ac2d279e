use atha::flow::{Event, Request};
use atha::remove::{classify_remove, remove_counts_text, remove_prompt};
use atha::install_run::InstallRun;
use atha::remove_run::{RemoveRun, RemoveStage};
use atha::report::Effect;

fn names(v: &[&str]) -> Vec<String> {
    v.iter().map(|s| s.to_string()).collect()
}

fn describe_effect(e: &Effect) -> String {
    match e {
        Effect::Show(l) => format!("{:?}: {}", l.tone, l.text),
        Effect::Log(m) => format!("Log: {m}"),
        Effect::Record(r) => format!(
            "Record: {}|{}|{}|{}|{}",
            r.action, r.target, r.source, r.status, r.detail
        ),
    }
}

fn describe_request(r: &Request) -> String {
    match r {
        Request::Locate(n) => format!("Locate {n}"),
        Request::Query(a) => format!("Query {}", a.join(" ")),
        Request::Capture(p, a) => format!("Capture {p} {}", a.join(" ")),
        Request::Probe(u) => format!("Probe {u}"),
        Request::Confirm(q) => format!("Confirm {q}"),
        Request::Inspect(p, a) => format!("Inspect {p} {}", a.join(" ")),
        Request::ShowOutput => "ShowOutput".to_string(),
        Request::FetchInfo(u) => format!("FetchInfo {u}"),
        Request::FetchSearch(u) => format!("FetchSearch {u}"),
        Request::Execute(p, a, sudo, cwd, show) => {
            format!("Execute {p} {} sudo={sudo} cwd={cwd:?} show={show}", a.join(" "))
        }
        Request::PrepareBuild(p) => format!("PrepareBuild {p}"),
        Request::Cleanup => "Cleanup".to_string(),
        Request::Finish(Ok(())) => "Finish ok".to_string(),
        Request::Finish(Err(m)) => format!("Finish error: {m}"),
    }
}

fn run_removal(mut run: RemoveRun, events: Vec<Event>) -> (Vec<String>, Vec<String>) {
    let mut effects = Vec::new();
    let mut requests = Vec::new();
    for ev in events {
        assert!(run.accepts(&ev));
        let (e, r) = run.step(ev);
        effects.extend(e.iter().map(describe_effect));
        requests.push(describe_request(&r));
    }
    (effects, requests)
}

#[test]
fn removal_classification() {
    let split = classify_remove(&names(&["vim", "nano", "git"]), &vec![true, false, true]);
    assert_eq!(split.targets, names(&["vim", "git"]));
    assert_eq!(split.missing, names(&["nano"]));
    assert_eq!(remove_counts_text(2, 1), "remove=2 skip=1");
    assert_eq!(
        remove_prompt(),
        "Are you sure you want to remove these packages and unneeded dependencies?"
    );
}

#[test]
fn removal_plan_with_a_simulated_transaction() {
    let run = RemoveRun::new(names(&["vim", "nano"]), true, false, false);
    let (effects, requests) = run_removal(
        run,
        vec![
            Event::Start,
            Event::Located(true),
            Event::Status(true),
            Event::Status(false),
            Event::Captured(Some((true, "vim|3145728\nvim-runtime|1048576\n".to_string()))),
        ],
    );
    assert_eq!(
        requests,
        names(&[
            "Locate pacman",
            "Query -Qi vim",
            "Query -Qi nano",
            "Capture pacman -Rns --print --print-format %n|%s vim",
            "Finish ok",
        ])
    );
    assert_eq!(
        effects,
        names(&[
            "Log: Remove requested for packages: vim nano",
            "Section: PLAN: Decision Analysis",
            "Plain:   - vim -> remove",
            "Plain:     reason: installed package",
            "Plain:   - nano -> skip",
            "Plain:     reason: not installed",
            "Section: PLAN: Transaction Impact",
            "Info: Transaction impact (remove + unneeded dependencies):",
            "Plain:   - vim (3.00 MiB)",
            "Plain:   - vim-runtime (1.00 MiB)",
            "Info: Estimated transaction size impact (freed space): 4.00 MiB",
            "Plain: ",
            "Info: Summary: remove=1 skip=1",
            "Record: remove|vim|official|planned|plan:installed package",
            "Record: remove|nano|official|skipped|plan:not installed",
            "Success: Plan completed (no changes applied)",
        ])
    );
}

#[test]
fn removal_plan_falls_back_to_installed_sizes() {
    let run = RemoveRun::new(names(&["vim", "git"]), true, false, false);
    let (effects, requests) = run_removal(
        run,
        vec![
            Event::Start,
            Event::Located(true),
            Event::Status(true),
            Event::Status(true),
            Event::Captured(Some((false, "error: failed to prepare transaction\n".to_string()))),
            Event::Captured(Some((true, "Name : vim\nInstalled Size : 3.50 MiB\n".to_string()))),
            Event::Captured(None),
        ],
    );
    assert_eq!(
        requests[4..].to_vec(),
        names(&["Capture pacman -Qi vim", "Capture pacman -Qi git", "Finish ok"])
    );
    assert!(effects.contains(&"Info: Estimated freed size for vim: 3.50 MiB".to_string()));
    assert!(effects.contains(&"Warn: Unable to simulate remove dependency tree for git".to_string()));
}

#[test]
fn removal_dry_run() {
    let run = RemoveRun::new(names(&["vim", "nano"]), false, true, false);
    let (effects, requests) = run_removal(
        run,
        vec![Event::Start, Event::Located(true), Event::Status(true), Event::Status(false)],
    );
    assert_eq!(requests.last().unwrap(), "Finish ok");
    assert_eq!(
        effects,
        names(&[
            "Log: Remove requested for packages: vim nano",
            "Section: DRY-RUN: Execution Simulation",
            "Info: No package changes will be applied",
            "Info: Would execute: sudo pacman -Rns vim",
            "Warn: nano -> already absent (skip)",
            "Record: remove|nano|official|skipped|dry-run:not installed",
            "Info: vim -> would execute: sudo pacman -Rns vim",
            "Record: remove|vim|official|planned|dry-run:installed package",
            "Plain: ",
            "Info: Execution summary: remove=1 skip=1",
            "Success: Dry-run completed (no changes applied)",
        ])
    );
}

#[test]
fn confirmed_removal() {
    let run = RemoveRun::new(names(&["vim"]), false, false, false);
    let (effects, requests) = run_removal(
        run,
        vec![
            Event::Start,
            Event::Located(true),
            Event::Status(true),
            Event::Answer(Ok(" Y \n".to_string())),
            Event::Ran(Ok(true)),
        ],
    );
    assert_eq!(
        requests,
        names(&[
            "Locate pacman",
            "Query -Qi vim",
            "Confirm Are you sure you want to remove these packages and unneeded dependencies? (y/N) ",
            "Execute pacman -Rns vim sudo=true cwd=None show=true",
            "Finish ok",
        ])
    );
    assert_eq!(
        effects,
        names(&[
            "Log: Remove requested for packages: vim",
            "Section: Execution Plan",
            "Info: Targets: vim",
            "Info: Summary: remove=1 skip=0",
            "Info: Removing: vim",
            "Log: Remove requested for packages: vim",
            "Plain: ",
            "Record: remove|vim|official|success|",
            "Log: Remove success",
            "Plain: ",
            "Success: Package(s) removed successfully",
        ])
    );
}

#[test]
fn removal_without_installed_targets() {
    let run = RemoveRun::new(names(&["nano"]), false, false, true);
    let (effects, requests) = run_removal(
        run,
        vec![Event::Start, Event::Located(true), Event::Status(false)],
    );
    assert_eq!(requests.last().unwrap(), "Finish ok");
    assert_eq!(
        effects,
        names(&[
            "Log: Remove requested for packages: nano",
            "Section: Execution Plan",
            "Record: remove|nano|official|skipped|not-installed",
            "Info: Summary: remove=0 skip=1",
            "Warn: Nothing to remove",
        ])
    );
}

#[test]
fn failed_and_cancelled_removals() {
    let (effects, requests) = run_removal(
        RemoveRun::new(names(&["vim"]), false, false, true),
        vec![Event::Start, Event::Located(true), Event::Status(true), Event::Ran(Ok(false))],
    );
    assert_eq!(requests.last().unwrap(), "Finish error: Remove failed");
    assert_eq!(
        effects[effects.len() - 2..].to_vec(),
        names(&[
            "Record: remove|vim|official|failed|pacman-remove",
            "Log: Remove failed for packages: vim",
        ])
    );
    let (effects, requests) = run_removal(
        RemoveRun::new(names(&["vim"]), false, false, false),
        vec![Event::Start, Event::Located(true), Event::Status(true), Event::Answer(Ok("\n".to_string()))],
    );
    assert_eq!(requests.last().unwrap(), "Finish ok");
    assert_eq!(
        effects[effects.len() - 3..].to_vec(),
        names(&[
            "Record: remove|vim|official|cancelled|user-cancel",
            "Log: Remove cancelled by user for packages: vim",
            "Info: Operation cancelled",
        ])
    );
    let (_, requests) = run_removal(
        RemoveRun::new(names(&["vim"]), false, false, false),
        vec![Event::Start, Event::Located(true), Event::Status(true), Event::Answer(Err("stdin closed".to_string()))],
    );
    assert_eq!(requests.last().unwrap(), "Finish error: stdin closed");
}

#[test]
fn removal_run_stages() {
    let mut run = RemoveRun::new(names(&["vim"]), true, false, false);
    assert_eq!(run.stage(), RemoveStage::Begin);
    assert!(!run.accepts(&Event::Ack));
    let _ = run.step(Event::Start);
    assert_eq!(run.stage(), RemoveStage::PacmanLocated);
}

#[test]
fn both_previews_read_the_same_simulation() {
    let capture = Event::Captured(Some((true, "vim|1024\nlib|2048\n".to_string())));
    let (removal, _) = run_removal(
        RemoveRun::new(names(&["vim"]), true, false, false),
        vec![Event::Start, Event::Located(true), Event::Status(true), capture],
    );
    let capture = Event::Captured(Some((true, "vim|1024\nlib|2048\n".to_string())));
    let mut install = InstallRun::new(names(&["vim"]), true, false, false);
    let mut shown = Vec::new();
    for ev in [Event::Start, Event::Located(true), Event::Status(false), Event::Status(true), capture] {
        assert!(install.accepts(&ev));
        let (e, _) = install.step(ev);
        shown.extend(e.iter().map(describe_effect));
    }
    assert!(removal.contains(&"Plain:   - vim (1.00 KiB)".to_string()));
    assert!(removal.contains(&"Plain:   - lib (2.00 KiB)".to_string()));
    assert!(shown.contains(&"Plain:   - vim (1.00 KiB, requested)".to_string()));
    assert!(shown.contains(&"Plain:   - lib (2.00 KiB, dependency)".to_string()));
}
