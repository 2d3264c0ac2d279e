use atha::flow::{Event, Request};
use atha::report::Effect;
use atha::update_run::UpdateRun;

fn show_effect(e: &Effect) -> String {
    match e {
        Effect::Show(l) => format!("{:?}: {}", l.tone, l.text),
        Effect::Log(m) => format!("Log: {m}"),
        Effect::Record(r) => format!(
            "Record: {}|{}|{}|{}|{}",
            r.action, r.target, r.source, r.status, r.detail
        ),
    }
}

fn show_request(r: &Request) -> String {
    match r {
        Request::Locate(n) => format!("Locate {n}"),
        Request::Capture(p, a) => format!("Capture {p} {}", a.join(" ")),
        Request::Execute(p, a, sudo, cwd, show) => {
            format!("Execute {p} {} sudo={sudo} cwd={cwd:?} show={show}", a.join(" "))
        }
        Request::Finish(Ok(())) => "Finish ok".to_string(),
        Request::Finish(Err(m)) => format!("Finish error: {m}"),
        _ => "other".to_string(),
    }
}

fn upgrade(mut run: UpdateRun, events: Vec<Event>) -> (Vec<String>, Vec<String>) {
    let mut effects = Vec::new();
    let mut requests = Vec::new();
    for ev in events {
        assert!(run.accepts(&ev));
        let (e, r) = run.step(ev);
        effects.extend(e.iter().map(show_effect));
        requests.push(show_request(&r));
    }
    (effects, requests)
}

fn strs_of(v: &[&str]) -> Vec<String> {
    v.iter().map(|s| s.to_string()).collect()
}

#[test]
fn update_plan_lists_pending_updates() {
    let (effects, requests) = upgrade(
        UpdateRun::new(true, false, false, true),
        vec![
            Event::Start,
            Event::Located(true),
            Event::Captured(Some((true, "yay 12.0-1\n".to_string()))),
            Event::Located(true),
            Event::Captured(Some((true, "linux 6.1-1 -> 6.2-1\nvim 9.0-1 -> 9.1-1\n".to_string()))),
        ],
    );
    assert_eq!(
        requests,
        strs_of(&["Locate pacman", "Capture pacman -Qm", "Locate checkupdates", "Capture checkupdates ", "Finish ok"])
    );
    assert_eq!(
        effects,
        strs_of(&[
            "Info: Updating system",
            "Log: System update requested",
            "Plain: ",
            "Info: Note: You have 1 AUR/local package(s) installed. These must be updated separately.",
            "Section: PLAN: Decision Analysis",
            "Info: Checking available updates",
            "Plain:   - linux -> update",
            "Plain:     reason: update available (6.1-1 -> 6.2-1)",
            "Plain:   - vim -> update",
            "Plain:     reason: update available (9.0-1 -> 9.1-1)",
            "Info: Pending updates: 2",
            "Info: Would execute: sudo pacman -Syu",
            "Record: update|system|official|planned|plan count=2",
            "Success: Plan completed (no changes applied)",
        ])
    );
}

#[test]
fn update_dry_run_without_checkupdates() {
    let (effects, requests) = upgrade(
        UpdateRun::new(false, true, true, false),
        vec![
            Event::Start,
            Event::Located(true),
            Event::Captured(None),
            Event::Located(false),
            Event::Captured(Some((true, "\n".to_string()))),
        ],
    );
    assert_eq!(requests[3], "Capture pacman -Qu");
    assert_eq!(
        effects,
        strs_of(&[
            "Info: Updating system",
            "Log: System update requested",
            "Plain: ",
            "Section: DRY-RUN: Execution Simulation",
            "Info: Checking available updates",
            "Warn: 'checkupdates' not found (install pacman-contrib). Falling back to local db check (pacman -Qu).",
            "Info: No pending updates detected",
            "Info: Would execute: pacman -Syu --noconfirm",
            "Record: update|system|official|planned|dry-run count=0",
            "Success: Dry-run completed (no changes applied)",
        ])
    );
}

#[test]
fn update_dry_run_prints_the_list() {
    let (effects, _) = upgrade(
        UpdateRun::new(false, true, false, true),
        vec![
            Event::Start,
            Event::Located(true),
            Event::Captured(Some((true, String::new()))),
            Event::Located(true),
            Event::Captured(Some((true, "linux 6.1-1 -> 6.2-1\n\n".to_string()))),
        ],
    );
    assert!(effects.contains(&"Plain: linux 6.1-1 -> 6.2-1".to_string()));
    assert!(effects.contains(&"Info: Pending updates: 1".to_string()));
}

#[test]
fn real_update_runs_pacman() {
    let (effects, requests) = upgrade(
        UpdateRun::new(false, false, true, true),
        vec![Event::Start, Event::Located(true), Event::Captured(Some((true, String::new()))), Event::Ran(Ok(true))],
    );
    assert_eq!(
        requests,
        strs_of(&[
            "Locate pacman",
            "Capture pacman -Qm",
            "Execute pacman -Syu --noconfirm sudo=true cwd=None show=true",
            "Finish ok",
        ])
    );
    assert_eq!(
        effects[3..].to_vec(),
        strs_of(&[
            "Record: update|system|official|success|",
            "Log: System update success",
            "Success: System updated successfully",
        ])
    );
    let (effects, requests) = upgrade(
        UpdateRun::new(false, false, false, true),
        vec![Event::Start, Event::Located(true), Event::Captured(None), Event::Ran(Ok(false))],
    );
    assert_eq!(requests.last().unwrap(), "Finish error: System update failed");
    assert_eq!(
        effects[3..].to_vec(),
        strs_of(&["Record: update|system|official|failed|pacman-syu", "Log: System update failed"])
    );
    let (_, requests) = upgrade(UpdateRun::new(false, false, false, true), vec![Event::Start, Event::Located(false)]);
    assert_eq!(requests.last().unwrap(), "Finish error: Command not found: pacman");
}
