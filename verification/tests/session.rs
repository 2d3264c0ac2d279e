use atha::history::HistoryQuery;
use atha::report::{color, render_line, Line, Tone};
use atha::session::{
    confirm_prompt, error_line, error_log_message, help_text, history_request_message,
    history_request_text, is_yes,
};

#[test]
fn help_text_lists_the_commands() {
    assert_eq!(
        help_text(),
        "atha - Simple Package Manager Wrapper\n\nCommands: install remove search update list info doctor history\nUse 'atha <command> --help' for command options."
    );
}

#[test]
fn answers_that_agree() {
    assert!(is_yes("y"));
    assert!(is_yes("Y\n"));
    assert!(is_yes("  y  "));
    assert!(!is_yes(""));
    assert!(!is_yes("yes"));
    assert!(!is_yes("n\n"));
    assert_eq!(confirm_prompt("Proceed with installation?"), "Proceed with installation? (y/N) ");
}

#[test]
fn error_messages() {
    assert_eq!(error_log_message("Remove failed"), "ERROR: Remove failed");
    assert_eq!(error_line("Remove failed"), "[atha] error: Remove failed");
}

#[test]
fn history_request_text_takes_rendered_filters() {
    let q = HistoryQuery { limit: 5, full: true, timeline: false, summary: true, action: None, status: None };
    assert_eq!(
        history_request_text(&q, "A", "B"),
        "History requested (limit=5 full=true timeline=false summary=true action=A status=B)"
    );
}

#[test]
fn filters_are_rendered_by_debug() {
    let q = HistoryQuery {
        limit: 1,
        full: false,
        timeline: false,
        summary: false,
        action: Some("a\"b".to_string()),
        status: None,
    };
    assert_eq!(
        history_request_message(&q),
        format!(
            "History requested (limit=1 full=false timeline=false summary=false action={:?} status={:?})",
            q.action, q.status
        )
    );
}

#[test]
fn history_request_log_line() {
    let q = HistoryQuery {
        limit: 20,
        full: false,
        timeline: true,
        summary: false,
        action: Some("install".to_string()),
        status: None,
    };
    assert_eq!(
        history_request_message(&q),
        "History requested (limit=20 full=false timeline=true summary=false action=Some(\"install\") status=None)"
    );
}

#[test]
fn colored_lines() {
    assert_eq!(color("1;34", "x", false), "\x1b[1;34mx\x1b[0m");
    assert_eq!(color("1;34", "x", true), "x");
    let l = |tone: Tone| Line { tone, text: "hi".to_string() };
    assert_eq!(render_line(&l(Tone::Info), true), "[atha] hi");
    assert_eq!(render_line(&l(Tone::Warn), true), "[atha] warning: hi");
    assert_eq!(render_line(&l(Tone::Success), false), "\x1b[1;32m[atha] hi\x1b[0m");
    assert_eq!(render_line(&l(Tone::Section), true), "\n==> hi");
    assert_eq!(render_line(&l(Tone::Section), false), "\n\x1b[1;34m==> hi\x1b[0m");
    assert_eq!(render_line(&l(Tone::Plain), false), "hi");
}
