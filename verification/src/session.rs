//! The conversation with the user: confirmation, errors, help, and the log
//! line of a history request.

use vstd::prelude::*;
use crate::text::{chars_of, decimal, decimal_string, trim, trim_str};
use crate::history::{opt_seq, HistoryQuery};

verus! {

/// The text shown when no command is given.
pub open spec fn help_spec() -> Seq<char> {
    "atha - Simple Package Manager Wrapper\n\nCommands: install remove search update list info doctor history\nUse 'atha <command> --help' for command options."@
}

/// See [`help_spec`].
pub fn help_text() -> (s: &'static str)
    ensures
        s@ == help_spec(),
{
    "atha - Simple Package Manager Wrapper\n\nCommands: install remove search update list info doctor history\nUse 'atha <command> --help' for command options."
}

/// The question asked before a change: `<prompt> (y/N) `.
pub fn confirm_prompt(prompt: &str) -> (s: String)
    ensures
        s@ == prompt@ + " (y/N) "@,
{
    let mut s = String::from_str(prompt);
    s.append(" (y/N) ");
    s
}

/// An answer agrees exactly when, without surrounding whitespace, it is `y`
/// or `Y`; anything else (an empty answer too) declines.
pub open spec fn is_yes_spec(answer: Seq<char>) -> bool {
    let t = trim(answer);
    t.len() == 1 && (t[0] == 'y' || t[0] == 'Y')
}

/// An answer agrees exactly when, once the surrounding whitespace is
/// removed, it is the single letter `y` or `Y`: `n`, `N`, `yes`, an empty
/// line or anything else declines.
pub proof fn law_only_y_agrees(answer: Seq<char>)
    ensures
        is_yes_spec(answer) <==> (trim(answer) == "y"@ || trim(answer) == "Y"@),
        trim(answer) == "n"@ ==> !is_yes_spec(answer),
        trim(answer) == "N"@ ==> !is_yes_spec(answer),
        trim(answer).len() != 1 ==> !is_yes_spec(answer),
{
    reveal_strlit("y");
    reveal_strlit("Y");
    reveal_strlit("n");
    reveal_strlit("N");
    let t = trim(answer);
    if t.len() == 1 {
        if t[0] == 'y' {
            assert(t =~= "y"@);
        }
        if t[0] == 'Y' {
            assert(t =~= "Y"@);
        }
    }
}

/// Whether the user's answer agrees to go on.
pub fn is_yes(answer: &str) -> (b: bool)
    ensures
        b == is_yes_spec(answer@),
{
    let t = trim_str(answer);
    let v = chars_of(t.as_str());
    v.len() == 1 && (v[0] == 'y' || v[0] == 'Y')
}

/// The log line of a failed run: `ERROR: <e>`.
pub fn error_log_message(e: &str) -> (s: String)
    ensures
        s@ == "ERROR: "@ + e@,
{
    let mut s = String::from_str("ERROR: ");
    s.append(e);
    s
}

/// The line printed on standard error for a failed run.
pub fn error_line(e: &str) -> (s: String)
    ensures
        s@ == "[atha] error: "@ + e@,
{
    let mut s = String::from_str("[atha] error: ");
    s.append(e);
    s
}

/// What `format!("{:?}", o)` gives for an optional string (std's `Debug`).
pub uninterp spec fn option_debug(o: Option<Seq<char>>) -> Seq<char>;

/// `format!("{:?}", o)`: std's `Debug` rendering of an optional string
/// (`None`, or `Some("...")` with the string escaped). The result is named
/// [`option_debug`] and depends on `o` alone; beyond `None` for no string,
/// the escaping of a string is not stated.
#[verifier::external_body]
pub(crate) fn debug_option(o: &Option<String>) -> (s: String)
    ensures
        s@ == option_debug(opt_seq(*o)),
        o.is_none() ==> s@ == "None"@,
{
    format!("{:?}", o)
}

/// `true` or `false`.
pub open spec fn bool_text(b: bool) -> Seq<char> {
    if b {
        "true"@
    } else {
        "false"@
    }
}

fn bool_str(b: bool) -> (s: &'static str)
    ensures
        s@ == bool_text(b),
{
    if b {
        "true"
    } else {
        "false"
    }
}

/// The log message of a history request whose filters, rendered by
/// `Debug`, are `action` and `status`.
pub open spec fn history_request_spec(
    limit: nat,
    full: bool,
    timeline: bool,
    summary: bool,
    action: Seq<char>,
    status: Seq<char>,
) -> Seq<char> {
    "History requested (limit="@ + decimal(limit) + " full="@ + bool_text(full) + " timeline="@
        + bool_text(timeline) + " summary="@ + bool_text(summary) + " action="@ + action
        + " status="@ + status + ")"@
}

/// See [`history_request_spec`]; `action` and `status` are the `Debug`
/// renderings of the request's filters.
pub fn history_request_text(q: &HistoryQuery, action: &str, status: &str) -> (s: String)
    ensures
        s@ == history_request_spec(q.limit as nat, q.full, q.timeline, q.summary, action@, status@),
{
    let mut s = String::from_str("History requested (limit=");
    s.append(decimal_string(q.limit as u128).as_str());
    s.append(" full=");
    s.append(bool_str(q.full));
    s.append(" timeline=");
    s.append(bool_str(q.timeline));
    s.append(" summary=");
    s.append(bool_str(q.summary));
    s.append(" action=");
    s.append(action);
    s.append(" status=");
    s.append(status);
    s.append(")");
    s
}

/// The log message of a history request, naming every option.
pub fn history_request_message(q: &HistoryQuery) -> (s: String)
    ensures
        s@ == history_request_spec(
            q.limit as nat,
            q.full,
            q.timeline,
            q.summary,
            option_debug(opt_seq(q.action)),
            option_debug(opt_seq(q.status)),
        ),
{
    let a = debug_option(&q.action);
    let st = debug_option(&q.status);
    history_request_text(q, a.as_str(), st.as_str())
}

} // verus!
