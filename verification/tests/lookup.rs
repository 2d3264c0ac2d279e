use atha::lookup::{
    info_aur_outcome, info_check, list_request_message, list_view, local_info_warning, log_about,
    search_aur_outcome, search_start, AurInfoReply, AurPkg, AurSearch,
};
use atha::report::{Effect, Line, Tone};
use atha::ListType;

fn describe(e: &Effect) -> String {
    match e {
        Effect::Show(l) => format!("{:?}: {}", l.tone, l.text),
        Effect::Log(m) => format!("Log: {m}"),
        Effect::Record(r) => format!("Record: {}|{}", r.action, r.target),
    }
}

fn pairs(v: &[Line]) -> Vec<(Tone, String)> {
    v.iter().map(|l| (l.tone, l.text.clone())).collect()
}

fn pkg(name: &str, version: &str, description: Option<&str>) -> AurPkg {
    AurPkg {
        name: name.to_string(),
        version: version.to_string(),
        description: description.map(|d| d.to_string()),
    }
}

#[test]
fn search_needs_a_term() {
    assert_eq!(search_start("").err(), Some("Package name cannot be empty".to_string()));
    let e = search_start("vim").unwrap();
    assert_eq!(e.iter().map(describe).collect::<Vec<_>>(), vec!["Log: Search requested with term: vim"]);
}

#[test]
fn aur_search_results() {
    let data = AurSearch {
        resultcount: 2,
        results: vec![pkg("yay", "12.3-1", Some("AUR helper")), pkg("yay-bin", "12.3-1", None)],
    };
    let (e, r) = search_aur_outcome("yay", &data);
    assert_eq!(r, Ok(()));
    assert_eq!(
        e.iter().map(describe).collect::<Vec<_>>(),
        vec![
            "Section: AUR Results (2)".to_string(),
            "Plain: aur/yay 12.3-1\n    AUR helper".to_string(),
            "Plain: aur/yay-bin 12.3-1\n    No description".to_string(),
            "Log: Search success in AUR for term: yay".to_string(),
        ]
    );
}

#[test]
fn aur_search_shows_at_most_fifteen() {
    let results: Vec<AurPkg> = (0..20).map(|i| pkg(&format!("p{i}"), "1", None)).collect();
    let (e, r) = search_aur_outcome("p", &AurSearch { resultcount: 20, results });
    assert!(r.is_ok());
    assert_eq!(e.len(), 17);
    assert_eq!(describe(&e[15]), "Plain: aur/p14 1\n    No description");
}

#[test]
fn aur_search_without_results() {
    let (e, r) = search_aur_outcome("zzz", &AurSearch { resultcount: 0, results: vec![] });
    assert_eq!(r, Err("No packages found for: zzz (official or AUR)".to_string()));
    assert_eq!(e.iter().map(describe).collect::<Vec<_>>(), vec!["Log: Search no results: zzz"]);
}

#[test]
fn info_lookups() {
    assert_eq!(info_check("vim"), Ok(()));
    assert_eq!(info_check("v m"), Err("Invalid package name: v m".to_string()));
    assert_eq!(describe(&log_about("Info requested for package: ", "vim")), "Log: Info requested for package: vim");
    assert_eq!(
        describe(&local_info_warning()),
        "Warn: Package not found in sync database, showing installed local info:"
    );
}

#[test]
fn aur_information() {
    let reply = AurInfoReply {
        resultcount: Some(1),
        name: "\"yay\"".to_string(),
        version: "\"12.3-1\"".to_string(),
        description: "\"AUR helper\"".to_string(),
        url: "\"https://github.com/Jguer/yay\"".to_string(),
        maintainer: "null".to_string(),
    };
    let (e, r) = info_aur_outcome("yay", &reply);
    assert_eq!(r, Ok(()));
    assert_eq!(
        e.iter().map(describe).collect::<Vec<_>>(),
        vec![
            "Plain: Name: \"yay\"\nVersion: \"12.3-1\"\nDescription: \"AUR helper\"\nURL: \"https://github.com/Jguer/yay\"\nMaintainer: null".to_string(),
            "Log: Info success for AUR package: yay".to_string(),
        ]
    );
    let none = AurInfoReply {
        resultcount: Some(0),
        name: "null".to_string(),
        version: "null".to_string(),
        description: "null".to_string(),
        url: "null".to_string(),
        maintainer: "null".to_string(),
    };
    let (e, r) = info_aur_outcome("nope", &none);
    assert_eq!(r, Err("Package not found in official repositories, local DB, or AUR: nope".to_string()));
    assert_eq!(e.iter().map(describe).collect::<Vec<_>>(), vec!["Log: Info failed for package: nope"]);
}

#[test]
fn listing() {
    assert_eq!(list_request_message(ListType::All, 50), "List requested: all (limit=50)");
    let text = "core a 1\ncore b 2\nextra c 3\n";
    let v = list_view(ListType::All, true, text, 2).unwrap();
    assert_eq!(
        pairs(&v),
        vec![
            (Tone::Plain, "core a 1".to_string()),
            (Tone::Plain, "core b 2".to_string()),
            (Tone::Plain, String::new()),
            (Tone::Info, "Showing first 2 packages (use 'atha list all --limit N' for more)".to_string()),
        ]
    );
    let v = list_view(ListType::Installed, true, "a 1\nb 2\n", 1).unwrap();
    assert_eq!(pairs(&v), vec![(Tone::Plain, "a 1".to_string()), (Tone::Plain, "b 2".to_string())]);
    assert_eq!(list_view(ListType::Aur, false, "", 5).err(), Some("pacman list failed".to_string()));
}
