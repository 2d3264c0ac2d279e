use atha::history::{
    history_line, history_view, log_line, parse_history, record_message, render_row, summarize,
    take_recent, timeline_row, HistoryQuery,
};
use atha::report::{Line, Record, Tone};

fn rec_of(a: &str, t: &str, s: &str, st: &str, d: &str) -> Record {
    Record {
        action: a.to_string(),
        target: t.to_string(),
        source: s.to_string(),
        status: st.to_string(),
        detail: d.to_string(),
    }
}

fn shown(v: &[Line]) -> Vec<(Tone, String)> {
    v.iter().map(|l| (l.tone, l.text.clone())).collect()
}

fn query(limit: usize) -> HistoryQuery {
    HistoryQuery { limit, full: false, timeline: false, summary: false, action: None, status: None }
}

const TS: &str = "2024-05-01 10:00:00";

#[test]
fn history_lines_and_log_messages() {
    let r = rec_of("install", "vim", "official", "success", "");
    assert_eq!(history_line(TS, &r), "2024-05-01 10:00:00|install|vim|official|success|");
    assert_eq!(record_message(&r), "install target=vim source=official status=success");
    let r = rec_of("remove", "git", "official", "failed", "pacman-remove");
    assert_eq!(
        record_message(&r),
        "remove target=git source=official status=failed detail=pacman-remove"
    );
    assert_eq!(log_line(TS, "Doctor check requested"), "[2024-05-01 10:00:00] Doctor check requested");
}

#[test]
fn written_entries_read_back() {
    let recs = vec![
        rec_of("install", "vim", "official", "success", ""),
        rec_of("install", "yay", "aur", "failed", "makepkg"),
        rec_of("remove", "nano", "official", "planned", "plan:installed package"),
    ];
    let mut raw = String::new();
    for r in &recs {
        raw.push_str(&history_line(TS, r));
        raw.push('\n');
    }
    let rows = parse_history(&raw, &None, &None);
    assert_eq!(rows.len(), 3);
    for (row, r) in rows.iter().zip(recs.iter()) {
        assert_eq!(
            row,
            &vec![
                TS.to_string(),
                r.action.clone(),
                r.target.clone(),
                r.source.clone(),
                r.status.clone(),
                r.detail.clone(),
            ]
        );
    }
}

#[test]
fn filters_and_short_lines() {
    let raw = "t|install|a|official|success|\n\nbroken|line\nt|remove|b|official|failed|x\nt|install|c|aur|failed|y\n";
    let rows = parse_history(raw, &Some("install".to_string()), &None);
    assert_eq!(rows.len(), 2);
    assert_eq!(rows[1][2], "c");
    let rows = parse_history(raw, &None, &Some("failed".to_string()));
    assert_eq!(rows.len(), 2);
    assert_eq!(rows[0][2], "b");
    let rows = parse_history(raw, &Some("install".to_string()), &Some("failed".to_string()));
    assert_eq!(rows.len(), 1);
    assert_eq!(rows[0][2], "c");
}

#[test]
fn only_the_most_recent_entries_are_kept() {
    let rows: Vec<Vec<String>> = (0..5).map(|i| vec![i.to_string()]).collect();
    let r = take_recent(rows.clone(), 2);
    assert_eq!(r, vec![vec!["3".to_string()], vec!["4".to_string()]]);
    let r = take_recent(rows.clone(), 10);
    assert_eq!(r, rows);
    let r = take_recent(rows, 0);
    assert!(r.is_empty());
}

#[test]
fn summary_counts_in_key_order() {
    let raw = "t|remove|a|official|success|\nt|install|b|aur|failed|\nt|install|c|official|success|\n";
    let rows = parse_history(raw, &None, &None);
    let s = summarize(&rows, 1);
    assert_eq!(
        shown(&s),
        vec![
            (Tone::Plain, "  - install: 2".to_string()),
            (Tone::Plain, "  - remove: 1".to_string()),
        ]
    );
    let s = summarize(&rows, 4);
    assert_eq!(
        shown(&s),
        vec![
            (Tone::Plain, "  - failed: 1".to_string()),
            (Tone::Plain, "  - success: 2".to_string()),
        ]
    );
}

#[test]
fn row_layouts() {
    let r: Vec<String> = ["2024-05-01 10:00:00", "install", "vim", "official", "success", ""]
        .iter()
        .map(|s| s.to_string())
        .collect();
    assert_eq!(
        render_row(&r, true, false),
        format!(
            "[{}] {:<7} {:<20} status={:<9} source={:<8} detail={}",
            r[0], "INSTALL", r[2], r[4], r[3], "-"
        )
    );
    assert_eq!(
        render_row(&r, false, true),
        format!("{:<19} | {:<7} | {:<24} | {:<8} | {:<9} | {}", r[0], r[1], r[2], r[3], r[4], r[5])
    );
    assert_eq!(
        render_row(&r, false, false),
        format!("{:<19} | {:<7} | {:<24} | {:<8} | {:<9}", r[0], r[1], r[2], r[3], r[4])
    );
}

#[test]
fn empty_history() {
    assert_eq!(
        shown(&history_view("  \n", &query(20))),
        vec![(Tone::Warn, "No history available yet".to_string())]
    );
    let mut q = query(20);
    q.action = Some("update".to_string());
    assert_eq!(
        shown(&history_view("t|install|a|official|success|\n", &q)),
        vec![(Tone::Warn, "No history matched the selected filters".to_string())]
    );
}

#[test]
fn history_view_shows_recent_rows() {
    let raw = "t1|install|a|official|success|\nt2|remove|b|official|failed|x\nt3|update|system|official|success|\n";
    let v = history_view(raw, &query(2));
    assert_eq!(
        shown(&v),
        vec![
            (Tone::Plain, format!("{:<19} | {:<7} | {:<24} | {:<8} | {:<9}", "t2", "remove", "b", "official", "failed")),
            (Tone::Plain, format!("{:<19} | {:<7} | {:<24} | {:<8} | {:<9}", "t3", "update", "system", "official", "success")),
            (Tone::Plain, String::new()),
            (Tone::Success, "History shown".to_string()),
        ]
    );
}

#[test]
fn history_view_summary() {
    let raw = "t1|install|a|official|success|\nt2|remove|b|official|failed|x\n";
    let mut q = query(20);
    q.summary = true;
    assert_eq!(
        shown(&history_view(raw, &q)),
        vec![
            (Tone::Section, "Summary by action".to_string()),
            (Tone::Plain, "  - install: 1".to_string()),
            (Tone::Plain, "  - remove: 1".to_string()),
            (Tone::Section, "Summary by status".to_string()),
            (Tone::Plain, "  - failed: 1".to_string()),
            (Tone::Plain, "  - success: 1".to_string()),
            (Tone::Plain, String::new()),
            (Tone::Success, "History shown".to_string()),
        ]
    );
}

#[test]
fn timeline_rows_use_the_upper_cased_action() {
    let r: Vec<String> = ["t", "straße", "pkg", "aur", "failed", "makepkg"].iter().map(|s| s.to_string()).collect();
    assert_eq!(
        render_row(&r, true, false),
        format!("[t] {:<7} {:<20} status={:<9} source={:<8} detail=makepkg", "STRASSE", "pkg", "failed", "aur")
    );
    assert_eq!(
        timeline_row(&r, "X"),
        format!("[t] {:<7} {:<20} status={:<9} source={:<8} detail=makepkg", "X", "pkg", "failed", "aur")
    );
}

#[test]
fn inner_carriage_returns_read_back() {
    let r = rec_of("install", "a\rb", "official", "success", "x\ry");
    let raw = format!("{}\n", history_line(TS, &r));
    let rows = parse_history(&raw, &None, &None);
    assert_eq!(
        rows,
        vec![vec![
            TS.to_string(),
            "install".to_string(),
            "a\rb".to_string(),
            "official".to_string(),
            "success".to_string(),
            "x\ry".to_string(),
        ]]
    );
}

#[test]
fn summaries_of_short_rows() {
    let rows: Vec<Vec<String>> = vec![
        vec!["x".to_string(), "b".to_string()],
        vec!["y".to_string(), "a".to_string()],
        vec!["z".to_string(), "b".to_string()],
    ];
    assert_eq!(
        shown(&summarize(&rows, 1)),
        vec![(Tone::Plain, "  - a: 1".to_string()), (Tone::Plain, "  - b: 2".to_string())]
    );
}
