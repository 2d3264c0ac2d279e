use atha::flow::{Event, Request};
use atha::lookup::{AurInfoReply, AurPkg, AurSearch};
use atha::lookup_run::{InfoRun, InfoStage, SearchRun, SearchStage};
use atha::report::Effect;

fn say(e: &Effect) -> String {
    match e {
        Effect::Show(l) => format!("{:?}: {}", l.tone, l.text),
        Effect::Log(m) => format!("Log: {m}"),
        Effect::Record(r) => format!("Record: {}|{}", r.action, r.target),
    }
}

fn ask(r: &Request) -> String {
    match r {
        Request::Locate(n) => format!("Locate {n}"),
        Request::Inspect(p, a) => format!("Inspect {p} {}", a.join(" ")),
        Request::ShowOutput => "ShowOutput".to_string(),
        Request::FetchInfo(u) => format!("FetchInfo {u}"),
        Request::FetchSearch(u) => format!("FetchSearch {u}"),
        Request::Finish(Ok(())) => "Finish ok".to_string(),
        Request::Finish(Err(m)) => format!("Finish error: {m}"),
        _ => "other".to_string(),
    }
}

fn info_steps(pkg: &str, events: Vec<Event>) -> (Vec<String>, Vec<String>) {
    let mut run = InfoRun::new(pkg.to_string());
    let (mut effects, mut requests) = (Vec::new(), Vec::new());
    for ev in events {
        assert!(run.accepts(&ev));
        let (e, r) = run.step(ev);
        effects.extend(e.iter().map(say));
        requests.push(ask(&r));
    }
    (effects, requests)
}

fn search_steps(term: &str, events: Vec<Event>) -> (Vec<String>, Vec<String>) {
    let mut run = SearchRun::new(term.to_string());
    let (mut effects, mut requests) = (Vec::new(), Vec::new());
    for ev in events {
        assert!(run.accepts(&ev));
        let (e, r) = run.step(ev);
        effects.extend(e.iter().map(say));
        requests.push(ask(&r));
    }
    (effects, requests)
}

fn texts(v: &[&str]) -> Vec<String> {
    v.iter().map(|s| s.to_string()).collect()
}

#[test]
fn info_from_the_sync_databases() {
    let (e, r) = info_steps(
        "vim",
        vec![Event::Start, Event::Located(true), Event::Inspected(Ok((true, true))), Event::Ack],
    );
    assert_eq!(r, texts(&["Locate pacman", "Inspect pacman -Si vim", "ShowOutput", "Finish ok"]));
    assert_eq!(
        e,
        texts(&["Log: Info requested for package: vim", "Log: Info success for official package: vim"])
    );
}

#[test]
fn info_from_the_local_database() {
    let (e, r) = info_steps(
        "mypkg",
        vec![
            Event::Start,
            Event::Located(true),
            Event::Inspected(Ok((false, false))),
            Event::Inspected(Ok((true, true))),
            Event::Ack,
        ],
    );
    assert_eq!(
        r,
        texts(&["Locate pacman", "Inspect pacman -Si mypkg", "Inspect pacman -Qi mypkg", "ShowOutput", "Finish ok"])
    );
    assert_eq!(
        e,
        texts(&[
            "Log: Info requested for package: mypkg",
            "Warn: Package not found in sync database, showing installed local info:",
            "Log: Info success for local package: mypkg",
        ])
    );
}

#[test]
fn info_from_the_aur() {
    let reply = AurInfoReply {
        resultcount: Some(1),
        name: "\"yay\"".to_string(),
        version: "\"12\"".to_string(),
        description: "null".to_string(),
        url: "null".to_string(),
        maintainer: "\"jguer\"".to_string(),
    };
    let (e, r) = info_steps(
        "yay",
        vec![
            Event::Start,
            Event::Located(true),
            Event::Inspected(Ok((false, false))),
            Event::Inspected(Ok((false, false))),
            Event::InfoReply(Ok(reply)),
        ],
    );
    assert_eq!(r[3], "FetchInfo https://aur.archlinux.org/rpc/v5/info/yay");
    assert_eq!(r[4], "Finish ok");
    assert_eq!(
        e[1..].to_vec(),
        texts(&[
            "Plain: Name: \"yay\"\nVersion: \"12\"\nDescription: null\nURL: null\nMaintainer: \"jguer\"",
            "Log: Info success for AUR package: yay",
        ])
    );
}

#[test]
fn info_failures() {
    let (_, r) = info_steps("bad name", vec![Event::Start]);
    assert_eq!(r, texts(&["Finish error: Invalid package name: bad name"]));
    let (_, r) = info_steps("vim", vec![Event::Start, Event::Located(false)]);
    assert_eq!(r.last().unwrap(), "Finish error: Command not found: pacman");
    let (_, r) = info_steps(
        "vim",
        vec![Event::Start, Event::Located(true), Event::Inspected(Err("no pacman".to_string()))],
    );
    assert_eq!(r.last().unwrap(), "Finish error: no pacman");
    let none = AurInfoReply {
        resultcount: Some(0),
        name: "null".to_string(),
        version: "null".to_string(),
        description: "null".to_string(),
        url: "null".to_string(),
        maintainer: "null".to_string(),
    };
    let (e, r) = info_steps(
        "nope",
        vec![
            Event::Start,
            Event::Located(true),
            Event::Inspected(Ok((false, true))),
            Event::Inspected(Ok((false, true))),
            Event::InfoReply(Ok(none)),
        ],
    );
    assert_eq!(r.last().unwrap(), "Finish error: Package not found in official repositories, local DB, or AUR: nope");
    assert_eq!(e.last().unwrap(), "Log: Info failed for package: nope");
    let (_, r) = info_steps(
        "nope",
        vec![
            Event::Start,
            Event::Located(true),
            Event::Inspected(Ok((false, true))),
            Event::Inspected(Ok((false, true))),
            Event::InfoReply(Err("dns error".to_string())),
        ],
    );
    assert_eq!(r.last().unwrap(), "Finish error: dns error");
}

#[test]
fn info_run_waits_for_the_right_outcome() {
    let mut run = InfoRun::new("vim".to_string());
    assert_eq!(run.stage(), InfoStage::Begin);
    assert!(!run.accepts(&Event::Ack));
    let _ = run.step(Event::Start);
    assert_eq!(run.stage(), InfoStage::PacmanLocated);
}

#[test]
fn search_in_the_sync_databases() {
    let (e, r) = search_steps(
        "vim",
        vec![Event::Start, Event::Located(true), Event::Inspected(Ok((true, true))), Event::Ack],
    );
    assert_eq!(r, texts(&["Locate pacman", "Inspect pacman -Ss vim", "ShowOutput", "Finish ok"]));
    assert_eq!(
        e,
        texts(&["Log: Search requested with term: vim", "Log: Search success in official repo for term: vim"])
    );
}

#[test]
fn search_turns_to_the_aur() {
    let data = AurSearch {
        resultcount: 1,
        results: vec![AurPkg { name: "yay".to_string(), version: "12".to_string(), description: None }],
    };
    // pacman succeeded but printed nothing
    let (e, r) = search_steps(
        "yay",
        vec![Event::Start, Event::Located(true), Event::Inspected(Ok((true, false))), Event::SearchReply(Ok(data))],
    );
    assert_eq!(r[2], "FetchSearch https://aur.archlinux.org/rpc/v5/search/yay");
    assert_eq!(r[3], "Finish ok");
    assert_eq!(
        e,
        texts(&[
            "Log: Search requested with term: yay",
            "Section: AUR Results (1)",
            "Plain: aur/yay 12\n    No description",
            "Log: Search success in AUR for term: yay",
        ])
    );
    let (e, r) = search_steps(
        "zzz",
        vec![
            Event::Start,
            Event::Located(true),
            Event::Inspected(Ok((false, false))),
            Event::SearchReply(Ok(AurSearch { resultcount: 0, results: vec![] })),
        ],
    );
    assert_eq!(r.last().unwrap(), "Finish error: No packages found for: zzz (official or AUR)");
    assert_eq!(e.last().unwrap(), "Log: Search no results: zzz");
}

#[test]
fn search_failures() {
    let (_, r) = search_steps("", vec![Event::Start, Event::Located(true)]);
    assert_eq!(r.last().unwrap(), "Finish error: Package name cannot be empty");
    let (_, r) = search_steps("", vec![Event::Start, Event::Located(false)]);
    assert_eq!(r.last().unwrap(), "Finish error: Command not found: pacman");
    let mut run = SearchRun::new("x".to_string());
    assert_eq!(run.stage(), SearchStage::Begin);
    let _ = run.step(Event::Start);
    assert!(!run.accepts(&Event::Ack));
}
