//! Looking packages up: searching, showing information, and listing.

use vstd::prelude::*;
use crate::text::{decimal, decimal_string, lines, lines_of, views};
use crate::names::{invalid_name_message, is_valid_pkg, list_label, valid_pkg, ListType};
use crate::report::{
    effect_views, line_views, push_effect, push_line, show, show_str, Effect, EffectV, Line, Tone,
};

verus! {

// ---------------------------------------------------------------------------
// Search
// ---------------------------------------------------------------------------

/// A package found by the AUR search service.
pub struct AurPkg {
    pub name: String,
    pub version: String,
    pub description: Option<String>,
}

/// The answer of the AUR search service.
pub struct AurSearch {
    pub resultcount: usize,
    pub results: Vec<AurPkg>,
}

/// The abstract form of a found package: name, version, description.
pub open spec fn aur_pkg_view(p: AurPkg) -> (Seq<char>, Seq<char>, Option<Seq<char>>) {
    (
        p.name@,
        p.version@,
        match p.description {
            Some(d) => Some(d@),
            None => None,
        },
    )
}

/// The abstract form of a search answer: the number of results and the
/// results.
pub type SearchV = (nat, Seq<(Seq<char>, Seq<char>, Option<Seq<char>>)>);

/// See [`SearchV`].
pub open spec fn search_view(d: AurSearch) -> SearchV {
    (d.resultcount as nat, d.results@.map_values(|p: AurPkg| aur_pkg_view(p)))
}

/// The line shown for one AUR search result.
pub open spec fn aur_result_line(p: (Seq<char>, Seq<char>, Option<Seq<char>>)) -> Seq<char> {
    "aur/"@ + p.0 + " "@ + p.1 + "\n    "@ + match p.2 {
        Some(d) => d,
        None => "No description"@,
    }
}

/// The message of the error for an empty search term.
pub open spec fn empty_term_message() -> Seq<char> {
    "Package name cannot be empty"@
}

/// A search needs a term; it starts by logging it.
pub fn search_start(term: &str) -> (r: Result<Vec<Effect>, String>)
    ensures
        r.is_err() == (term@.len() == 0),
        r matches Err(m) ==> m@ == empty_term_message(),
        r matches Ok(v) ==> effect_views(v@) == seq![
            EffectV::Log("Search requested with term: "@ + term@),
        ],
{
    if term.unicode_len() == 0 {
        return Err(String::from_str("Package name cannot be empty"));
    }
    let mut out: Vec<Effect> = Vec::new();
    let mut m = String::from_str("Search requested with term: ");
    m.append(term);
    push_effect(&mut out, Effect::Log(m));
    assert(effect_views(out@) =~= seq![EffectV::Log("Search requested with term: "@ + term@)]);
    Ok(out)
}

/// What the AUR answer leads to: with results, a section with the count and
/// the first fifteen results, and success; without, the search fails with
/// `No packages found for: <term> (official or AUR)`.
pub open spec fn search_aur_spec(
    term: Seq<char>,
    resultcount: nat,
    results: Seq<(Seq<char>, Seq<char>, Option<Seq<char>>)>,
) -> Seq<EffectV> {
    if resultcount > 0 {
        seq![EffectV::Show(Tone::Section, "AUR Results ("@ + decimal(resultcount) + ")"@)]
            + results.take(if results.len() < 15 { results.len() as int } else { 15 }).map_values(
            |p: (Seq<char>, Seq<char>, Option<Seq<char>>)|
                EffectV::Show(Tone::Plain, aur_result_line(p)),
        ) + seq![EffectV::Log("Search success in AUR for term: "@ + term)]
    } else {
        seq![EffectV::Log("Search no results: "@ + term)]
    }
}

/// See [`search_aur_spec`].
pub fn search_aur_outcome(term: &str, data: &AurSearch) -> (r: (Vec<Effect>, Result<(), String>))
    ensures
        effect_views(r.0@) == search_aur_spec(
            term@,
            data.resultcount as nat,
            data.results@.map_values(|p: AurPkg| aur_pkg_view(p)),
        ),
        r.1.is_ok() == (data.resultcount > 0),
        r.1 matches Err(m) ==> m@ == "No packages found for: "@ + term@ + " (official or AUR)"@,
{
    let mut out: Vec<Effect> = Vec::new();
    if data.resultcount > 0 {
        let mut h = String::from_str("AUR Results (");
        h.append(decimal_string(data.resultcount as u128).as_str());
        h.append(")");
        push_effect(&mut out, show(Tone::Section, h));
        let ghost rv = data.results@.map_values(|p: AurPkg| aur_pkg_view(p));
        let ghost f = |p: (Seq<char>, Seq<char>, Option<Seq<char>>)|
            EffectV::Show(Tone::Plain, aur_result_line(p));
        let ghost head = effect_views(out@);
        let n = if data.results.len() < 15 {
            data.results.len()
        } else {
            15
        };
        let mut i: usize = 0;
        while i < n
            invariant
                i <= n <= data.results.len(),
                rv == data.results@.map_values(|p: AurPkg| aur_pkg_view(p)),
                f == (|p: (Seq<char>, Seq<char>, Option<Seq<char>>)|
                    EffectV::Show(Tone::Plain, aur_result_line(p))),
                effect_views(out@) == head + rv.take(i as int).map_values(f),
            decreases n - i,
        {
            let p = &data.results[i];
            let mut l = String::from_str("aur/");
            l.append(p.name.as_str());
            l.append(" ");
            l.append(p.version.as_str());
            l.append("\n    ");
            match &p.description {
                Some(d) => l.append(d.as_str()),
                None => l.append("No description"),
            }
            assert(rv[i as int] == aur_pkg_view(data.results@[i as int]));
            push_effect(&mut out, show(Tone::Plain, l));
            i += 1;
            assert(effect_views(out@) =~= head + rv.take(i as int).map_values(f));
        }
        let mut m = String::from_str("Search success in AUR for term: ");
        m.append(term);
        push_effect(&mut out, Effect::Log(m));
        assert(effect_views(out@) =~= search_aur_spec(term@, data.resultcount as nat, rv));
        (out, Ok(()))
    } else {
        let mut m = String::from_str("Search no results: ");
        m.append(term);
        push_effect(&mut out, Effect::Log(m));
        assert(effect_views(out@) =~= search_aur_spec(
            term@,
            data.resultcount as nat,
            data.results@.map_values(|p: AurPkg| aur_pkg_view(p)),
        ));
        let mut e = String::from_str("No packages found for: ");
        e.append(term);
        e.append(" (official or AUR)");
        (out, Err(e))
    }
}

// ---------------------------------------------------------------------------
// Information
// ---------------------------------------------------------------------------

/// The answer of the AUR information service: the number of results, when
/// it is a whole number, and the fields of the first result as JSON text.
pub struct AurInfoReply {
    pub resultcount: Option<u64>,
    pub name: String,
    pub version: String,
    pub description: String,
    pub url: String,
    pub maintainer: String,
}

/// The abstract form of an information reply: the number of results and
/// the fields of the first one.
pub type InfoReplyV = (Option<u64>, (Seq<char>, Seq<char>, Seq<char>, Seq<char>, Seq<char>));

/// See [`InfoReplyV`].
pub open spec fn info_reply_view(r: AurInfoReply) -> InfoReplyV {
    (r.resultcount, (r.name@, r.version@, r.description@, r.url@, r.maintainer@))
}

/// Information is only looked up for a valid package name.
pub fn info_check(pkg: &str) -> (r: Result<(), String>)
    ensures
        r.is_ok() == is_valid_pkg(pkg@),
        r matches Err(m) ==> m@ == invalid_name_message(pkg@),
{
    if valid_pkg(pkg) {
        Ok(())
    } else {
        let mut m = String::from_str("Invalid package name: ");
        m.append(pkg);
        Err(m)
    }
}

/// A log message made of a fixed text and the package name.
pub fn log_about(prefix: &str, pkg: &str) -> (e: Effect)
    ensures
        e@ == EffectV::Log(prefix@ + pkg@),
{
    let mut m = String::from_str(prefix);
    m.append(pkg);
    Effect::Log(m)
}

/// The warning shown above the local information of a package that the
/// sync databases do not know.
pub fn local_info_warning() -> (e: Effect)
    ensures
        e@ == EffectV::Show(
            Tone::Warn,
            "Package not found in sync database, showing installed local info:"@,
        ),
{
    show_str(Tone::Warn, "Package not found in sync database, showing installed local info:")
}

/// What the AUR answer leads to: with exactly one result its fields are
/// shown and the lookup succeeds; otherwise it fails with `Package not found
/// in official repositories, local DB, or AUR: <pkg>`.
pub open spec fn info_aur_spec(
    pkg: Seq<char>,
    resultcount: Option<u64>,
    fields: (Seq<char>, Seq<char>, Seq<char>, Seq<char>, Seq<char>),
) -> Seq<EffectV> {
    if resultcount == Some(1u64) {
        seq![
            EffectV::Show(
                Tone::Plain,
                "Name: "@ + fields.0 + "\nVersion: "@ + fields.1 + "\nDescription: "@ + fields.2
                    + "\nURL: "@ + fields.3 + "\nMaintainer: "@ + fields.4,
            ),
            EffectV::Log("Info success for AUR package: "@ + pkg),
        ]
    } else {
        seq![EffectV::Log("Info failed for package: "@ + pkg)]
    }
}

/// See [`info_aur_spec`].
pub fn info_aur_outcome(pkg: &str, reply: &AurInfoReply) -> (r: (Vec<Effect>, Result<(), String>))
    ensures
        effect_views(r.0@) == info_aur_spec(
            pkg@,
            reply.resultcount,
            (reply.name@, reply.version@, reply.description@, reply.url@, reply.maintainer@),
        ),
        r.1.is_ok() == (reply.resultcount == Some(1u64)),
        r.1 matches Err(m) ==> m@ == "Package not found in official repositories, local DB, or AUR: "@
            + pkg@,
{
    let mut out: Vec<Effect> = Vec::new();
    let found = match reply.resultcount {
        Some(n) => n == 1,
        None => false,
    };
    if found {
        let mut t = String::from_str("Name: ");
        t.append(reply.name.as_str());
        t.append("\nVersion: ");
        t.append(reply.version.as_str());
        t.append("\nDescription: ");
        t.append(reply.description.as_str());
        t.append("\nURL: ");
        t.append(reply.url.as_str());
        t.append("\nMaintainer: ");
        t.append(reply.maintainer.as_str());
        push_effect(&mut out, show(Tone::Plain, t));
        push_effect(&mut out, log_about("Info success for AUR package: ", pkg));
        assert(effect_views(out@) =~= info_aur_spec(
            pkg@,
            reply.resultcount,
            (reply.name@, reply.version@, reply.description@, reply.url@, reply.maintainer@),
        ));
        (out, Ok(()))
    } else {
        push_effect(&mut out, log_about("Info failed for package: ", pkg));
        assert(effect_views(out@) =~= info_aur_spec(
            pkg@,
            reply.resultcount,
            (reply.name@, reply.version@, reply.description@, reply.url@, reply.maintainer@),
        ));
        let mut e = String::from_str("Package not found in official repositories, local DB, or AUR: ");
        e.append(pkg);
        (out, Err(e))
    }
}

// ---------------------------------------------------------------------------
// Listing
// ---------------------------------------------------------------------------

/// The log message of a listing request.
pub fn list_request_message(kind: ListType, limit: usize) -> (s: String)
    ensures
        s@ == "List requested: "@ + list_label(kind) + " (limit="@ + decimal(limit as nat) + ")"@,
{
    let mut s = String::from_str("List requested: ");
    s.append(kind.label());
    s.append(" (limit=");
    s.append(decimal_string(limit as u128).as_str());
    s.append(")");
    s
}

/// What `atha list` shows of pacman's listing `text`: every line, except
/// that the repository listing is cut to its first `limit` lines and
/// followed by a note.
pub open spec fn list_view_spec(kind: ListType, text: Seq<char>, limit: nat) -> Seq<(Tone, Seq<char>)> {
    let ls = lines_of(text);
    if kind == ListType::All {
        ls.take(if ls.len() < limit { ls.len() as int } else { limit as int }).map_values(
            |l: Seq<char>| (Tone::Plain, l),
        ) + seq![
            (Tone::Plain, Seq::<char>::empty()),
            (
                Tone::Info,
                "Showing first "@ + decimal(limit)
                    + " packages (use 'atha list all --limit N' for more)"@,
            ),
        ]
    } else {
        ls.map_values(|l: Seq<char>| (Tone::Plain, l))
    }
}

/// Only the repository listing is cut to the limit. For every other kind
/// the listing shows each line pacman printed, in order and unchanged,
/// whatever the limit, and nothing else; the repository listing shows the
/// first `limit` lines (all of them when there are fewer), a blank line and
/// `Showing first <limit> packages (use 'atha list all --limit N' for
/// more)`.
pub proof fn law_only_all_is_paginated(kind: ListType, text: Seq<char>, limit: nat)
    ensures
        kind != ListType::All ==> list_view_spec(kind, text, limit).len() == lines_of(text).len(),
        kind != ListType::All ==> forall|i: int|
            0 <= i < lines_of(text).len() ==> #[trigger] list_view_spec(kind, text, limit)[i] == (
                Tone::Plain,
                lines_of(text)[i],
            ),
        kind == ListType::All ==> list_view_spec(kind, text, limit).len() == (if lines_of(text).len()
            < limit {
            lines_of(text).len()
        } else {
            limit
        }) + 2,
        kind == ListType::All ==> forall|i: int|
            0 <= i < lines_of(text).len() && i < limit ==> #[trigger] list_view_spec(
                kind,
                text,
                limit,
            )[i] == (Tone::Plain, lines_of(text)[i]),
        kind == ListType::All ==> list_view_spec(kind, text, limit).last() == (
            Tone::Info,
            "Showing first "@ + decimal(limit) + " packages (use 'atha list all --limit N' for more)"@,
        ),
{
}

/// The lines shown for a listing; the listing fails with `pacman list
/// failed` when pacman did not succeed.
pub fn list_view(kind: ListType, success: bool, text: &str, limit: usize) -> (r: Result<
    Vec<Line>,
    String,
>)
    ensures
        r.is_ok() == success,
        r matches Ok(v) ==> line_views(v@) == list_view_spec(kind, text@, limit as nat),
        r matches Ok(v) ==> (kind != ListType::All ==> line_views(v@) == lines_of(text@).map_values(
            |l: Seq<char>| (Tone::Plain, l),
        )),
        r matches Err(m) ==> m@ == "pacman list failed"@,
{
    if !success {
        return Err(String::from_str("pacman list failed"));
    }
    let ls = lines(text);
    let ghost lv = views(ls@);
    let n = if kind.paginated() && limit < ls.len() {
        limit
    } else {
        ls.len()
    };
    let mut out: Vec<Line> = Vec::new();
    let mut i: usize = 0;
    while i < n
        invariant
            i <= n <= ls.len(),
            lv == views(ls@),
            line_views(out@) == lv.take(i as int).map_values(|l: Seq<char>| (Tone::Plain, l)),
        decreases n - i,
    {
        push_line(&mut out, Line { tone: Tone::Plain, text: String::from_str(ls[i].as_str()) });
        i += 1;
        assert(line_views(out@) =~= lv.take(i as int).map_values(|l: Seq<char>| (Tone::Plain, l)));
    }
    if kind.paginated() {
        push_line(&mut out, Line { tone: Tone::Plain, text: String::new() });
        let mut m = String::from_str("Showing first ");
        m.append(decimal_string(limit as u128).as_str());
        m.append(" packages (use 'atha list all --limit N' for more)");
        push_line(&mut out, Line { tone: Tone::Info, text: m });
    } else {
        assert(lv.take(ls.len() as int) =~= lv);
    }
    assert(line_views(out@) =~= list_view_spec(kind, text@, limit as nat));
    Ok(out)
}

} // verus!
