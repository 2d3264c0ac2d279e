//! The history of package operations: how an entry is written, how the
//! history file is read back, filtered, summarised and shown.
//!
//! Each entry is one line `time|action|target|source|status|detail`.

use vstd::prelude::*;
use crate::text::{
    is_ws, strip_cr, lemma_split_by_last, lemma_split_by_pieces, lemma_split_by_append_plain,
    lemma_split_by_push_sep, lemma_str_lt_transitive, lemma_str_lt_total, all_ws, decimal,
    decimal_string, eq_char, is_blank, lines, lines_of, pad_right, pad_right_str, split_by,
    split_char, str_eq, str_lt, string_lt, to_upper, upper, views,
};
use crate::report::{line_views, push_line, Line, Record, RecordV, Tone};

verus! {

// ---------------------------------------------------------------------------
// Writing
// ---------------------------------------------------------------------------

/// The line appended to the history file for an entry made at `ts`.
pub open spec fn history_line_spec(ts: Seq<char>, r: RecordV) -> Seq<char> {
    ts + "|"@ + r.0 + "|"@ + r.1 + "|"@ + r.2 + "|"@ + r.3 + "|"@ + r.4
}

/// The free-form log message written alongside an entry.
pub open spec fn record_message_spec(r: RecordV) -> Seq<char> {
    r.0 + " target="@ + r.1 + " source="@ + r.2 + " status="@ + r.3 + if r.4.len() == 0 {
        Seq::<char>::empty()
    } else {
        " detail="@ + r.4
    }
}

/// A line of the log file written at `ts`.
pub open spec fn log_line_spec(ts: Seq<char>, msg: Seq<char>) -> Seq<char> {
    "["@ + ts + "] "@ + msg
}

/// The history line of `r`, stamped with `ts`.
pub fn history_line(ts: &str, r: &Record) -> (s: String)
    ensures
        s@ == history_line_spec(ts@, r@),
{
    let mut s = String::from_str(ts);
    s.append("|");
    s.append(r.action.as_str());
    s.append("|");
    s.append(r.target.as_str());
    s.append("|");
    s.append(r.source.as_str());
    s.append("|");
    s.append(r.status.as_str());
    s.append("|");
    s.append(r.detail.as_str());
    s
}

/// The log message of `r`: `action target=.. source=.. status=..`, then
/// ` detail=..` when there is a detail.
pub fn record_message(r: &Record) -> (s: String)
    ensures
        s@ == record_message_spec(r@),
{
    let mut s = String::from_str(r.action.as_str());
    s.append(" target=");
    s.append(r.target.as_str());
    s.append(" source=");
    s.append(r.source.as_str());
    s.append(" status=");
    s.append(r.status.as_str());
    if r.detail.as_str().unicode_len() == 0 {
        assert(s@ =~= record_message_spec(r@));
    } else {
        s.append(" detail=");
        s.append(r.detail.as_str());
    }
    s
}

/// The log line `[ts] msg`.
pub fn log_line(ts: &str, msg: &str) -> (s: String)
    ensures
        s@ == log_line_spec(ts@, msg@),
{
    let mut s = String::from_str("[");
    s.append(ts);
    s.append("] ");
    s.append(msg);
    s
}

// ---------------------------------------------------------------------------
// Reading
// ---------------------------------------------------------------------------

/// A filter on one field: none, or the exact value.
pub open spec fn filter_ok(f: Option<Seq<char>>, v: Seq<char>) -> bool {
    match f {
        Some(x) => v == x,
        None => true,
    }
}

/// A line of the history file is shown: it is not blank, has at least six
/// fields, and its action (field 1) and status (field 4) pass the filters.
pub open spec fn line_kept(l: Seq<char>, action: Option<Seq<char>>, status: Option<Seq<char>>) -> bool {
    let r = split_by(l, eq_char('|'));
    !all_ws(l) && r.len() >= 6 && filter_ok(action, r[1]) && filter_ok(status, r[4])
}

/// The entries of the history text `raw` that pass the filters, in file
/// order, each split into its fields.
pub open spec fn history_rows(
    raw: Seq<char>,
    action: Option<Seq<char>>,
    status: Option<Seq<char>>,
) -> Seq<Seq<Seq<char>>> {
    lines_of(raw).filter(|l: Seq<char>| line_kept(l, action, status)).map_values(
        |l: Seq<char>| split_by(l, eq_char('|')),
    )
}

/// The last `limit` of `rows` (all of them when there are fewer).
pub open spec fn recent<T>(rows: Seq<T>, limit: nat) -> Seq<T> {
    if rows.len() > limit {
        rows.skip(rows.len() - limit)
    } else {
        rows
    }
}

/// At most `limit` entries are shown, and they are the most recent ones:
/// the shown rows are the end of the matching rows.
pub proof fn law_recent_limit<T>(rows: Seq<T>, limit: nat)
    ensures
        recent(rows, limit).len() == if rows.len() < limit {
            rows.len()
        } else {
            limit
        },
        recent(rows, limit) == rows.skip(rows.len() - recent(rows, limit).len()),
{
    if rows.len() <= limit {
        assert(rows.skip(0) =~= rows);
    }
}

/// The views of a sequence of rows.
pub open spec fn rows_view(v: Seq<Vec<String>>) -> Seq<Seq<Seq<char>>> {
    v.map_values(|r: Vec<String>| views(r@))
}

/// Whether `v` passes a field filter.
fn passes(f: &Option<String>, v: &str) -> (b: bool)
    ensures
        b == filter_ok(opt_seq(*f), v@),
{
    match f {
        Some(x) => str_eq(v, x.as_str()),
        None => true,
    }
}

/// The view of an optional string.
pub open spec fn opt_seq(o: Option<String>) -> Option<Seq<char>> {
    match o {
        Some(s) => Some(s@),
        None => None,
    }
}

/// The entries of `raw` that pass the filters, split into fields.
pub fn parse_history(raw: &str, action: &Option<String>, status: &Option<String>) -> (rows: Vec<
    Vec<String>,
>)
    ensures
        rows_view(rows@) == history_rows(raw@, opt_seq(*action), opt_seq(*status)),
        forall|i: int| 0 <= i < rows@.len() ==> #[trigger] rows@[i]@.len() >= 6,
{
    let ls = lines(raw);
    let ghost a = opt_seq(*action);
    let ghost st = opt_seq(*status);
    let ghost keep = |l: Seq<char>| line_kept(l, a, st);
    let ghost fields = |l: Seq<char>| split_by(l, eq_char('|'));
    let mut rows: Vec<Vec<String>> = Vec::new();
    let mut i: usize = 0;
    assert(views(ls@).take(0) =~= Seq::<Seq<char>>::empty());
    reveal_with_fuel(Seq::filter, 1);
    while i < ls.len()
        invariant
            i <= ls.len(),
            views(ls@) == lines_of(raw@),
            a == opt_seq(*action),
            st == opt_seq(*status),
            keep == (|l: Seq<char>| line_kept(l, a, st)),
            fields == (|l: Seq<char>| split_by(l, eq_char('|'))),
            rows_view(rows@) == views(ls@).take(i as int).filter(keep).map_values(fields),
            forall|k: int| 0 <= k < rows@.len() ==> #[trigger] rows@[k]@.len() >= 6,
        decreases ls.len() - i,
    {
        let l = ls[i].as_str();
        let ghost lv = views(ls@)[i as int];
        let ghost pre = views(ls@).take(i as int);
        assert(views(ls@).take(i + 1).drop_last() =~= pre);
        assert(views(ls@).take(i + 1).last() == lv);
        assert(l@ == lv);
        reveal_with_fuel(Seq::filter, 1);
        if !is_blank(l) {
            let parts = split_char(l, '|');
            if parts.len() >= 6 && passes(action, parts[1].as_str()) && passes(
                status,
                parts[4].as_str(),
            ) {
                assert(keep(lv));
                let ghost old_rows = rows_view(rows@);
                let ghost pv = views(parts@);
                rows.push(parts);
                assert(rows_view(rows@) =~= old_rows.push(pv));
                assert(pre.filter(keep).push(lv).map_values(fields) =~= pre.filter(
                    keep,
                ).map_values(fields).push(fields(lv)));
            } else {
                assert(!keep(lv));
            }
        } else {
            assert(!keep(lv));
        }
        i += 1;
    }
    assert(views(ls@).take(ls.len() as int) =~= views(ls@));
    rows
}

/// The last `limit` rows.
pub fn take_recent(rows: Vec<Vec<String>>, limit: usize) -> (r: Vec<Vec<String>>)
    ensures
        rows_view(r@) == recent(rows_view(rows@), limit as nat),
        r@ == recent(rows@, limit as nat),
{
    let n = rows.len();
    if n <= limit {
        return rows;
    }
    let ghost orig = rows@;
    let mut rows = rows;
    let out = rows.split_off(n - limit);
    assert(out@ =~= orig.skip(n - limit));
    assert(rows_view(out@) =~= rows_view(orig).skip(n - limit));
    out
}

// ---------------------------------------------------------------------------
// Summaries
// ---------------------------------------------------------------------------

/// `t` with one more occurrence of `k`: its count goes up by one, or it is
/// inserted with count one in key order.
pub open spec fn tally_insert(t: Seq<(Seq<char>, nat)>, k: Seq<char>) -> Seq<(Seq<char>, nat)>
    decreases t.len(),
{
    if t.len() == 0 {
        seq![(k, 1nat)]
    } else if t[0].0 == k {
        t.update(0, (k, t[0].1 + 1))
    } else if str_lt(k, t[0].0) {
        seq![(k, 1nat)] + t
    } else {
        seq![t[0]] + tally_insert(t.drop_first(), k)
    }
}

/// Each distinct value of `keys` with its number of occurrences, in key
/// order (what collecting the counts in a `BTreeMap` gives).
pub open spec fn tally(keys: Seq<Seq<char>>) -> Seq<(Seq<char>, nat)>
    decreases keys.len(),
{
    if keys.len() == 0 {
        Seq::empty()
    } else {
        tally_insert(tally(keys.drop_last()), keys.last())
    }
}

/// The sum of the counts of a tally.
pub open spec fn total(t: Seq<(Seq<char>, nat)>) -> nat
    decreases t.len(),
{
    if t.len() == 0 {
        0
    } else {
        t[0].1 + total(t.drop_first())
    }
}

/// The abstract form of a tally being built.
pub open spec fn tally_view(t: Seq<(String, usize)>) -> Seq<(Seq<char>, nat)> {
    t.map_values(|p: (String, usize)| (p.0@, p.1 as nat))
}

/// Field `idx` of every row.
pub open spec fn field_values(rows: Seq<Seq<Seq<char>>>, idx: int) -> Seq<Seq<char>> {
    rows.map_values(|r: Seq<Seq<char>>| r[idx])
}

/// The line shown for one value of a summary.
pub open spec fn tally_line(p: (Seq<char>, nat)) -> (Tone, Seq<char>) {
    (Tone::Plain, "  - "@ + p.0 + ": "@ + decimal(p.1))
}

/// The lines of the summary of field `idx` of `rows`.
pub open spec fn summary_lines(rows: Seq<Seq<Seq<char>>>, idx: int) -> Seq<(Tone, Seq<char>)> {
    tally(field_values(rows, idx)).map_values(|p: (Seq<char>, nat)| tally_line(p))
}

/// Inserting one occurrence adds one to the total.
pub proof fn lemma_total_insert(t: Seq<(Seq<char>, nat)>, k: Seq<char>)
    ensures
        total(tally_insert(t, k)) == total(t) + 1,
    decreases t.len(),
{
    if t.len() == 0 {
        assert(seq![(k, 1nat)].drop_first() =~= Seq::<(Seq<char>, nat)>::empty());
        assert(total(Seq::<(Seq<char>, nat)>::empty()) == 0);
        assert(total(seq![(k, 1nat)]) == 1);
    } else if t[0].0 == k {
        assert(t.update(0, (k, t[0].1 + 1)).drop_first() =~= t.drop_first());
        assert(total(t.update(0, (k, t[0].1 + 1))) == t[0].1 + 1 + total(t.drop_first()));
    } else if str_lt(k, t[0].0) {
        assert((seq![(k, 1nat)] + t).drop_first() =~= t);
        assert(total(seq![(k, 1nat)] + t) == 1 + total(t));
    } else {
        lemma_total_insert(t.drop_first(), k);
        assert((seq![t[0]] + tally_insert(t.drop_first(), k)).drop_first() =~= tally_insert(
            t.drop_first(),
            k,
        ));
    }
}

/// No count exceeds the total.
pub proof fn lemma_count_le_total(t: Seq<(Seq<char>, nat)>)
    ensures
        forall|j: int| 0 <= j < t.len() ==> #[trigger] t[j].1 <= total(t),
    decreases t.len(),
{
    if t.len() > 0 {
        lemma_count_le_total(t.drop_first());
        assert forall|j: int| 0 <= j < t.len() implies #[trigger] t[j].1 <= total(t) by {
            if j > 0 {
                assert(t[j] == t.drop_first()[j - 1]);
            }
        }
    }
}

/// The counts of a summary add up to the number of values summarised.
pub proof fn law_tally_total(keys: Seq<Seq<char>>)
    ensures
        total(tally(keys)) == keys.len(),
    decreases keys.len(),
{
    if keys.len() > 0 {
        law_tally_total(keys.drop_last());
        lemma_total_insert(tally(keys.drop_last()), keys.last());
    }
}

/// The keys of a tally, in order.
pub open spec fn keys_of(t: Seq<(Seq<char>, nat)>) -> Seq<Seq<char>> {
    t.map_values(|p: (Seq<char>, nat)| p.0)
}

/// The keys of a tally are in strictly increasing order.
pub open spec fn sorted_keys(t: Seq<(Seq<char>, nat)>) -> bool {
    forall|i: int, j: int| 0 <= i < j < t.len() ==> str_lt(#[trigger] t[i].0, #[trigger] t[j].0)
}

/// Inserting keeps the keys sorted and adds `k` to them.
pub proof fn lemma_tally_insert_sorted(t: Seq<(Seq<char>, nat)>, k: Seq<char>)
    requires
        sorted_keys(t),
    ensures
        sorted_keys(tally_insert(t, k)),
        keys_of(tally_insert(t, k)).to_set() == keys_of(t).to_set().insert(k),
    decreases t.len(),
{
    let r = tally_insert(t, k);
    if t.len() == 0 {
        assert(keys_of(r) =~= seq![k]);
        assert(keys_of(r).to_set() =~= keys_of(t).to_set().insert(k)) by {
            assert(keys_of(t) =~= Seq::<Seq<char>>::empty());
            assert forall|x: Seq<char>| keys_of(r).contains(x) <==> x == k by {
                if x == k {
                    assert(keys_of(r)[0] == x);
                }
            }
        }
    } else if t[0].0 == k {
        assert(keys_of(r) =~= keys_of(t));
        assert(keys_of(t).contains(k)) by {
            assert(keys_of(t)[0] == k);
        }
        assert(keys_of(r).to_set() =~= keys_of(t).to_set().insert(k));
    } else if str_lt(k, t[0].0) {
        assert forall|i: int, j: int| 0 <= i < j < r.len() implies str_lt(
            #[trigger] r[i].0,
            #[trigger] r[j].0,
        ) by {
            if i == 0 {
                if j > 1 {
                    lemma_str_lt_transitive(k, t[0].0, t[j - 1].0);
                }
            } else {
                assert(r[i] == t[i - 1] && r[j] == t[j - 1]);
            }
        }
        assert(keys_of(r) =~= seq![k] + keys_of(t));
        assert(keys_of(r).to_set() =~= keys_of(t).to_set().insert(k)) by {
            assert forall|x: Seq<char>| keys_of(r).contains(x) <==> (keys_of(t).contains(x) || x == k) by {
                if keys_of(r).contains(x) {
                    let j = choose|j: int| 0 <= j < keys_of(r).len() && keys_of(r)[j] == x;
                    if j > 0 {
                        assert(keys_of(t)[j - 1] == x);
                    }
                }
                if keys_of(t).contains(x) {
                    let j = choose|j: int| 0 <= j < keys_of(t).len() && keys_of(t)[j] == x;
                    assert(keys_of(r)[j + 1] == x);
                }
                if x == k {
                    assert(keys_of(r)[0] == x);
                }
            }
        }
    } else {
        lemma_str_lt_total(k, t[0].0);
        let rest = t.drop_first();
        assert(sorted_keys(rest)) by {
            assert forall|i: int, j: int| 0 <= i < j < rest.len() implies str_lt(
                #[trigger] rest[i].0,
                #[trigger] rest[j].0,
            ) by {
                assert(rest[i] == t[i + 1] && rest[j] == t[j + 1]);
            }
        }
        lemma_tally_insert_sorted(rest, k);
        let rr = tally_insert(rest, k);
        assert(r == seq![t[0]] + rr);
        assert forall|x: Seq<char>| keys_of(rr).contains(x) implies str_lt(t[0].0, x) by {
            assert(keys_of(rr).to_set().contains(x));
            if x != k {
                assert(keys_of(rest).to_set().contains(x));
                let j = choose|j: int| 0 <= j < keys_of(rest).len() && keys_of(rest)[j] == x;
                assert(t[j + 1].0 == x);
            }
        }
        assert forall|i: int, j: int| 0 <= i < j < r.len() implies str_lt(
            #[trigger] r[i].0,
            #[trigger] r[j].0,
        ) by {
            if i == 0 {
                assert(r[j] == rr[j - 1]);
                assert(keys_of(rr)[j - 1] == rr[j - 1].0);
                assert(keys_of(rr).contains(rr[j - 1].0));
            } else {
                assert(r[i] == rr[i - 1] && r[j] == rr[j - 1]);
            }
        }
        assert(keys_of(r) =~= seq![t[0].0] + keys_of(rr));
        assert(keys_of(t) =~= seq![t[0].0] + keys_of(rest));
        assert(keys_of(r).to_set() =~= keys_of(t).to_set().insert(k)) by {
            assert forall|x: Seq<char>| keys_of(r).contains(x) <==> (keys_of(t).contains(x) || x == k) by {
                assert((seq![t[0].0] + keys_of(rr)).contains(x) <==> (x == t[0].0 || keys_of(rr).contains(x))) by {
                    if (seq![t[0].0] + keys_of(rr)).contains(x) {
                        let j = choose|j: int| 0 <= j < keys_of(r).len() && keys_of(r)[j] == x;
                        if j > 0 {
                            assert(keys_of(rr)[j - 1] == x);
                        }
                    }
                    if keys_of(rr).contains(x) {
                        let j = choose|j: int| 0 <= j < keys_of(rr).len() && keys_of(rr)[j] == x;
                        assert(keys_of(r)[j + 1] == x);
                    }
                    if x == t[0].0 {
                        assert(keys_of(r)[0] == x);
                    }
                }
                assert((seq![t[0].0] + keys_of(rest)).contains(x) <==> (x == t[0].0 || keys_of(rest).contains(x))) by {
                    if (seq![t[0].0] + keys_of(rest)).contains(x) {
                        let j = choose|j: int| 0 <= j < keys_of(t).len() && keys_of(t)[j] == x;
                        if j > 0 {
                            assert(keys_of(rest)[j - 1] == x);
                        }
                    }
                    if keys_of(rest).contains(x) {
                        let j = choose|j: int| 0 <= j < keys_of(rest).len() && keys_of(rest)[j] == x;
                        assert(keys_of(t)[j + 1] == x);
                    }
                    if x == t[0].0 {
                        assert(keys_of(t)[0] == x);
                    }
                }
                assert(keys_of(rr).to_set().contains(x) <==> keys_of(rr).contains(x));
                assert(keys_of(rest).to_set().contains(x) <==> keys_of(rest).contains(x));
            }
        }
    }
}

/// A summary lists each value once, in increasing order, and lists exactly
/// the values that occur.
pub proof fn law_tally_sorted(keys: Seq<Seq<char>>)
    ensures
        sorted_keys(tally(keys)),
        keys_of(tally(keys)).to_set() == keys.to_set(),
    decreases keys.len(),
{
    if keys.len() == 0 {
        assert(keys_of(tally(keys)) =~= Seq::<Seq<char>>::empty());
        assert(keys_of(tally(keys)).to_set() =~= keys.to_set());
    } else {
        law_tally_sorted(keys.drop_last());
        lemma_tally_insert_sorted(tally(keys.drop_last()), keys.last());
        assert(keys =~= keys.drop_last().push(keys.last()));
        assert(keys.to_set() =~= keys.drop_last().to_set().insert(keys.last())) by {
            assert forall|x: Seq<char>| keys.contains(x) <==> (keys.drop_last().contains(x) || x == keys.last()) by {
                if keys.contains(x) {
                    let j = choose|j: int| 0 <= j < keys.len() && keys[j] == x;
                    if j < keys.len() - 1 {
                        assert(keys.drop_last()[j] == x);
                    }
                }
                if keys.drop_last().contains(x) {
                    let j = choose|j: int| 0 <= j < keys.drop_last().len() && keys.drop_last()[j] == x;
                    assert(keys[j] == x);
                }
                if x == keys.last() {
                    assert(keys[keys.len() - 1] == x);
                }
            }
        }
    }
}

/// Adds one occurrence of `k` to the tally `t`.
fn tally_add(t: &mut Vec<(String, usize)>, k: &str)
    requires
        total(tally_view(old(t)@)) < usize::MAX,
    ensures
        tally_view(final(t)@) == tally_insert(tally_view(old(t)@), k@),
{
    let ghost t0 = tally_view(t@);
    let mut j: usize = 0;
    assert(t0.take(0) + t0.skip(0) =~= t0);
    assert(t0.skip(0) =~= t0);
    while j < t.len()
        invariant
            j <= t.len(),
            t0 == tally_view(t@),
            t0 == tally_view(old(t)@),
            total(t0) < usize::MAX,
            tally_insert(t0, k@) == t0.take(j as int) + tally_insert(t0.skip(j as int), k@),
        decreases t.len() - j,
    {
        let ghost rest = t0.skip(j as int);
        assert(rest[0] == t0[j as int]);
        if str_eq(t[j].0.as_str(), k) {
            proof {
                lemma_count_le_total(t0);
                assert(t0[j as int].1 <= total(t0));
            }
            assert(tally_insert(rest, k@) == rest.update(0, (k@, rest[0].1 + 1)));
            let (name, c) = t.remove(j);
            t.insert(j, (name, c + 1));
            assert(tally_view(t@) =~= t0.take(j as int) + rest.update(0, (k@, rest[0].1 + 1)));
            return;
        }
        if string_lt(k, t[j].0.as_str()) {
            assert(tally_insert(rest, k@) == seq![(k@, 1nat)] + rest);
            t.insert(j, (String::from_str(k), 1));
            assert(tally_view(t@) =~= t0.take(j as int) + (seq![(k@, 1nat)] + rest));
            return;
        }
        assert(rest.drop_first() =~= t0.skip(j + 1));
        assert(t0.take(j as int) + (seq![rest[0]] + tally_insert(rest.drop_first(), k@))
            =~= t0.take(j + 1) + tally_insert(t0.skip(j + 1), k@));
        j += 1;
    }
    assert(t0.skip(j as int) =~= Seq::<(Seq<char>, nat)>::empty());
    assert(t0.take(j as int) =~= t0);
    t.push((String::from_str(k), 1));
    assert(tally_view(t@) =~= t0 + seq![(k@, 1nat)]);
}

/// The summary lines of field `idx`: `  - <value>: <count>` for each distinct
/// value, in order of the values.
pub fn summarize(rows: &Vec<Vec<String>>, idx: usize) -> (r: Vec<Line>)
    requires
        forall|i: int| 0 <= i < rows@.len() ==> idx < #[trigger] rows@[i]@.len(),
    ensures
        line_views(r@) == summary_lines(rows_view(rows@), idx as int),
{
    let ghost keys = field_values(rows_view(rows@), idx as int);
    let mut t: Vec<(String, usize)> = Vec::new();
    let mut i: usize = 0;
    assert(keys.take(0) =~= Seq::<Seq<char>>::empty());
    assert(tally_view(t@) =~= tally(keys.take(0)));
    while i < rows.len()
        invariant
            i <= rows.len(),
            forall|i: int| 0 <= i < rows@.len() ==> idx < #[trigger] rows@[i]@.len(),
            keys == field_values(rows_view(rows@), idx as int),
            tally_view(t@) == tally(keys.take(i as int)),
            total(tally_view(t@)) == i,
        decreases rows.len() - i,
    {
        assert(idx < rows@[i as int]@.len());
        let k = rows[i][idx].as_str();
        assert(k@ == keys[i as int]);
        assert(keys.take(i + 1).drop_last() =~= keys.take(i as int));
        proof {
            law_tally_total(keys.take(i as int));
        }
        tally_add(&mut t, k);
        proof {
            law_tally_total(keys.take(i + 1));
        }
        i += 1;
    }
    assert(keys.take(rows.len() as int) =~= keys);
    let mut out: Vec<Line> = Vec::new();
    let mut j: usize = 0;
    while j < t.len()
        invariant
            j <= t.len(),
            tally_view(t@) == tally(keys),
            keys == field_values(rows_view(rows@), idx as int),
            line_views(out@) == tally_view(t@).take(j as int).map_values(
                |p: (Seq<char>, nat)| tally_line(p),
            ),
        decreases t.len() - j,
    {
        let mut s = String::from_str("  - ");
        s.append(t[j].0.as_str());
        s.append(": ");
        let n = decimal_string(t[j].1 as u128);
        s.append(n.as_str());
        push_line(&mut out, Line { tone: Tone::Plain, text: s });
        j += 1;
        assert(line_views(out@) =~= tally_view(t@).take(j as int).map_values(
            |p: (Seq<char>, nat)| tally_line(p),
        ));
    }
    assert(tally_view(t@).take(t.len() as int) =~= tally_view(t@));
    out
}

// ---------------------------------------------------------------------------
// Showing
// ---------------------------------------------------------------------------

/// What `atha history` is asked to show.
pub struct HistoryQuery {
    /// How many of the most recent matching entries to show.
    pub limit: usize,
    /// Show the detail column too.
    pub full: bool,
    /// Show one sentence-like line per entry.
    pub timeline: bool,
    /// Show counts by action and by status instead of entries.
    pub summary: bool,
    /// Only entries with this action.
    pub action: Option<String>,
    /// Only entries with this status.
    pub status: Option<String>,
}

/// The timeline line of an entry whose action, upper-cased, is `action`:
/// `[time] ACTION  target  status=..  source=..  detail=..` (`-` for no
/// detail).
pub open spec fn timeline_text(r: Seq<Seq<char>>, action: Seq<char>) -> Seq<char> {
    "["@ + r[0] + "] "@ + pad_right(action, 7) + " "@ + pad_right(r[2], 20) + " status="@
        + pad_right(r[4], 9) + " source="@ + pad_right(r[3], 8) + " detail="@ + if r[5].len() == 0 {
        "-"@
    } else {
        r[5]
    }
}

/// The text of one entry in the chosen layout.
pub open spec fn row_text(r: Seq<Seq<char>>, timeline: bool, full: bool) -> Seq<char> {
    if timeline {
        timeline_text(r, upper(r[1]))
    } else if full {
        pad_right(r[0], 19) + " | "@ + pad_right(r[1], 7) + " | "@ + pad_right(r[2], 24) + " | "@
            + pad_right(r[3], 8) + " | "@ + pad_right(r[4], 9) + " | "@ + r[5]
    } else {
        pad_right(r[0], 19) + " | "@ + pad_right(r[1], 7) + " | "@ + pad_right(r[2], 24) + " | "@
            + pad_right(r[3], 8) + " | "@ + pad_right(r[4], 9)
    }
}

/// The lines shown by `atha history` for the history text `raw`.
pub open spec fn history_view_spec(
    raw: Seq<char>,
    limit: nat,
    full: bool,
    timeline: bool,
    summary: bool,
    action: Option<Seq<char>>,
    status: Option<Seq<char>>,
) -> Seq<(Tone, Seq<char>)> {
    if all_ws(raw) {
        seq![(Tone::Warn, "No history available yet"@)]
    } else {
        let rows = history_rows(raw, action, status);
        if rows.len() == 0 {
            seq![(Tone::Warn, "No history matched the selected filters"@)]
        } else {
            let shown = recent(rows, limit);
            let body = if summary {
                seq![(Tone::Section, "Summary by action"@)] + summary_lines(shown, 1) + seq![
                    (Tone::Section, "Summary by status"@),
                ] + summary_lines(shown, 4)
            } else {
                shown.map_values(|r: Seq<Seq<char>>| (Tone::Plain, row_text(r, timeline, full)))
            };
            body + seq![(Tone::Plain, Seq::<char>::empty()), (Tone::Success, "History shown"@)]
        }
    }
}

/// See [`timeline_text`]; `action` is the entry's action upper-cased.
pub fn timeline_row(r: &Vec<String>, action: &str) -> (s: String)
    requires
        r@.len() >= 6,
    ensures
        s@ == timeline_text(views(r@), action@),
{
    let ghost v = views(r@);
    assert(v[0] == r@[0]@ && v[2] == r@[2]@);
    assert(v[3] == r@[3]@ && v[4] == r@[4]@ && v[5] == r@[5]@);
    let mut s = String::from_str("[");
    s.append(r[0].as_str());
    s.append("] ");
    s.append(pad_right_str(action, 7).as_str());
    s.append(" ");
    s.append(pad_right_str(r[2].as_str(), 20).as_str());
    s.append(" status=");
    s.append(pad_right_str(r[4].as_str(), 9).as_str());
    s.append(" source=");
    s.append(pad_right_str(r[3].as_str(), 8).as_str());
    s.append(" detail=");
    if r[5].as_str().unicode_len() == 0 {
        s.append("-");
    } else {
        s.append(r[5].as_str());
    }
    s
}

/// The text of one entry (which has at least six fields).
pub fn render_row(r: &Vec<String>, timeline: bool, full: bool) -> (s: String)
    requires
        r@.len() >= 6,
    ensures
        s@ == row_text(views(r@), timeline, full),
{
    let ghost v = views(r@);
    assert(v[0] == r@[0]@ && v[1] == r@[1]@ && v[2] == r@[2]@);
    assert(v[3] == r@[3]@ && v[4] == r@[4]@ && v[5] == r@[5]@);
    if timeline {
        let up = to_upper(r[1].as_str());
        timeline_row(r, up.as_str())
    } else {
        let mut s = pad_right_str(r[0].as_str(), 19);
        s.append(" | ");
        s.append(pad_right_str(r[1].as_str(), 7).as_str());
        s.append(" | ");
        s.append(pad_right_str(r[2].as_str(), 24).as_str());
        s.append(" | ");
        s.append(pad_right_str(r[3].as_str(), 8).as_str());
        s.append(" | ");
        s.append(pad_right_str(r[4].as_str(), 9).as_str());
        if full {
            s.append(" | ");
            s.append(r[5].as_str());
        }
        s
    }
}

/// The lines that `atha history` shows for the history text `raw`: a warning
/// when there is no history or nothing matches; otherwise the last `limit`
/// matching entries (or their summary by action and by status), a blank line
/// and `History shown`.
pub fn history_view(raw: &str, q: &HistoryQuery) -> (r: Vec<Line>)
    ensures
        line_views(r@) == history_view_spec(
            raw@,
            q.limit as nat,
            q.full,
            q.timeline,
            q.summary,
            opt_seq(q.action),
            opt_seq(q.status),
        ),
{
    let mut out: Vec<Line> = Vec::new();
    if is_blank(raw) {
        push_line(&mut out, Line { tone: Tone::Warn, text: String::from_str("No history available yet") });
        assert(line_views(out@) =~= seq![(Tone::Warn, "No history available yet"@)]);
        return out;
    }
    let rows = parse_history(raw, &q.action, &q.status);
    if rows.len() == 0 {
        push_line(
            &mut out,
            Line { tone: Tone::Warn, text: String::from_str("No history matched the selected filters") },
        );
        assert(line_views(out@) =~= seq![(Tone::Warn, "No history matched the selected filters"@)]);
        return out;
    }
    let shown = take_recent(rows, q.limit);
    let ghost sv = rows_view(shown@);
    assert(forall|i: int| 0 <= i < shown@.len() ==> #[trigger] shown@[i]@.len() >= 6) by {
        assert forall|i: int| 0 <= i < shown@.len() implies #[trigger] shown@[i]@.len() >= 6 by {
            if rows@.len() > q.limit {
                assert(shown@[i] == rows@[i + (rows@.len() - q.limit)]);
            }
        }
    }
    if q.summary {
        push_line(&mut out, Line { tone: Tone::Section, text: String::from_str("Summary by action") });
        let a = summarize(&shown, 1);
        let ghost av = line_views(a@);
        let mut a = a;
        let ghost before = line_views(out@);
        out.append(&mut a);
        assert(line_views(out@) =~= before + av);
        push_line(&mut out, Line { tone: Tone::Section, text: String::from_str("Summary by status") });
        let b = summarize(&shown, 4);
        let ghost bv = line_views(b@);
        let mut b = b;
        let ghost before2 = line_views(out@);
        out.append(&mut b);
        assert(line_views(out@) =~= before2 + bv);
        assert(line_views(out@) =~= seq![(Tone::Section, "Summary by action"@)] + summary_lines(sv, 1)
            + seq![(Tone::Section, "Summary by status"@)] + summary_lines(sv, 4));
    } else {
        let mut i: usize = 0;
        while i < shown.len()
            invariant
                i <= shown.len(),
                sv == rows_view(shown@),
                forall|i: int| 0 <= i < shown@.len() ==> #[trigger] shown@[i]@.len() >= 6,
                line_views(out@) == sv.take(i as int).map_values(
                    |r: Seq<Seq<char>>| (Tone::Plain, row_text(r, q.timeline, q.full)),
                ),
            decreases shown.len() - i,
        {
            assert(shown@[i as int]@.len() >= 6);
            let t = render_row(&shown[i], q.timeline, q.full);
            push_line(&mut out, Line { tone: Tone::Plain, text: t });
            i += 1;
            assert(line_views(out@) =~= sv.take(i as int).map_values(
                |r: Seq<Seq<char>>| (Tone::Plain, row_text(r, q.timeline, q.full)),
            ));
        }
        assert(sv.take(shown.len() as int) =~= sv);
    }
    push_line(&mut out, Line { tone: Tone::Plain, text: String::new() });
    push_line(&mut out, Line { tone: Tone::Success, text: String::from_str("History shown") });
    out
}

// ---------------------------------------------------------------------------
// What a read gives back of a write
// ---------------------------------------------------------------------------

/// A field that survives a round trip through the history file: it holds no
/// field separator `|` and no line feed.
pub open spec fn clean_field(f: Seq<char>) -> bool {
    forall|i: int| 0 <= i < f.len() ==> #[trigger] f[i] != '|' && f[i] != '\n'
}

/// The fields of a written entry, in file order.
pub open spec fn entry_fields(ts: Seq<char>, r: RecordV) -> Seq<Seq<char>> {
    seq![ts, r.0, r.1, r.2, r.3, r.4]
}

/// Splitting a written line at `|` gives back its six fields.
proof fn lemma_line_fields(ts: Seq<char>, r: RecordV)
    requires
        clean_field(ts),
        clean_field(r.0),
        clean_field(r.1),
        clean_field(r.2),
        clean_field(r.3),
        clean_field(r.4),
    ensures
        split_by(history_line_spec(ts, r), eq_char('|')) == entry_fields(ts, r),
{
    reveal_strlit("|");
    let bar = eq_char('|');
    assert("|"@ =~= seq!['|']);
    let e = Seq::<char>::empty();
    assert(split_by(e, bar) =~= seq![e]);
    lemma_split_by_append_plain(e, ts, bar);
    assert(e + ts =~= ts);
    assert(split_by(ts, bar) =~= seq![ts]);
    let s0 = ts;
    lemma_split_by_push_sep(s0, '|', bar);
    let s1 = s0.push('|') + r.0;
    lemma_split_by_append_plain(s0.push('|'), r.0, bar);
    assert(split_by(s1, bar) =~= seq![ts, r.0]);
    lemma_split_by_push_sep(s1, '|', bar);
    let s2 = s1.push('|') + r.1;
    lemma_split_by_append_plain(s1.push('|'), r.1, bar);
    assert(split_by(s2, bar) =~= seq![ts, r.0, r.1]);
    lemma_split_by_push_sep(s2, '|', bar);
    let s3 = s2.push('|') + r.2;
    lemma_split_by_append_plain(s2.push('|'), r.2, bar);
    assert(split_by(s3, bar) =~= seq![ts, r.0, r.1, r.2]);
    lemma_split_by_push_sep(s3, '|', bar);
    let s4 = s3.push('|') + r.3;
    lemma_split_by_append_plain(s3.push('|'), r.3, bar);
    assert(split_by(s4, bar) =~= seq![ts, r.0, r.1, r.2, r.3]);
    lemma_split_by_push_sep(s4, '|', bar);
    let s5 = s4.push('|') + r.4;
    lemma_split_by_append_plain(s4.push('|'), r.4, bar);
    assert(split_by(s5, bar) =~= seq![ts, r.0, r.1, r.2, r.3, r.4]);
    assert(history_line_spec(ts, r) =~= s5);
}

/// Appending a line and a line break to text that is empty or ends with a
/// line break adds exactly that line.
proof fn lemma_lines_append(prev: Seq<char>, l: Seq<char>)
    requires
        prev.len() == 0 || prev.last() == '\n',
        forall|i: int| 0 <= i < l.len() ==> #[trigger] l[i] != '\n',
        l.len() == 0 || l.last() != '\r',
    ensures
        lines_of(prev + l.push('\n')) == lines_of(prev).push(l),
{
    let nl = eq_char('\n');
    lemma_split_by_last(prev, nl);
    let p = split_by(prev, nl);
    lemma_split_by_append_plain(prev, l, nl);
    lemma_split_by_push_sep(prev + l, '\n', nl);
    assert(prev + l.push('\n') =~= (prev + l).push('\n'));
    let q = split_by(prev + l.push('\n'), nl);
    assert(q == p.update(p.len() - 1, p.last() + l).push(Seq::<char>::empty()));
    assert(p.last() + l =~= l);
    assert(strip_cr(l) == l);
    assert(lines_of(prev + l.push('\n')) =~= lines_of(prev).push(l));
}

/// What a read gives back of a write: appending the entry `r`, stamped `ts`,
/// to a history file adds exactly one row at its end, holding the six written
/// fields, when the entry passes the filters; and nothing when it does not.
/// (A carriage return ending the detail, the last field of the line, would
/// be read as part of the line break.)
pub proof fn law_history_roundtrip(
    prev: Seq<char>,
    ts: Seq<char>,
    r: RecordV,
    action: Option<Seq<char>>,
    status: Option<Seq<char>>,
)
    requires
        prev.len() == 0 || prev.last() == '\n',
        clean_field(ts),
        clean_field(r.0),
        clean_field(r.1),
        clean_field(r.2),
        clean_field(r.3),
        clean_field(r.4),
        r.4.len() == 0 || r.4.last() != '\r',
    ensures
        history_rows(prev + history_line_spec(ts, r).push('\n'), action, status) == if filter_ok(
            action,
            r.0,
        ) && filter_ok(status, r.3) {
            history_rows(prev, action, status).push(entry_fields(ts, r))
        } else {
            history_rows(prev, action, status)
        },
{
    let l = history_line_spec(ts, r);
    lemma_line_fields(ts, r);
    reveal_strlit("|");
    assert("|"@ =~= seq!['|']);
    let bar_at = ts.len() as int;
    assert(l[bar_at] == '|');
    assert forall|i: int| 0 <= i < l.len() implies #[trigger] l[i] != '\n' by {
        lemma_split_by_pieces(l, eq_char('|'));
        let ff = entry_fields(ts, r);
        let k0 = ts.len() as int;
        let k1 = k0 + 1 + r.0.len();
        let k2 = k1 + 1 + r.1.len();
        let k3 = k2 + 1 + r.2.len();
        let k4 = k3 + 1 + r.3.len();
        if i < k0 {
            assert(l[i] == ts[i]);
        } else if i == k0 {
        } else if i < k1 {
            assert(l[i] == r.0[i - k0 - 1]);
        } else if i == k1 {
        } else if i < k2 {
            assert(l[i] == r.1[i - k1 - 1]);
        } else if i == k2 {
        } else if i < k3 {
            assert(l[i] == r.2[i - k2 - 1]);
        } else if i == k3 {
        } else if i < k4 {
            assert(l[i] == r.3[i - k3 - 1]);
        } else if i == k4 {
        } else {
            assert(l[i] == r.4[i - k4 - 1]);
        }
    }
    assert(l.len() == 0 || l.last() != '\r') by {
        if r.4.len() > 0 {
            assert(l.last() == r.4.last());
        } else {
            assert(l.last() == '|');
        }
    }
    lemma_lines_append(prev, l);
    assert(!all_ws(l)) by {
        assert(!is_ws(l[bar_at]));
    }
    let keep = |x: Seq<char>| line_kept(x, action, status);
    let fields = |x: Seq<char>| split_by(x, eq_char('|'));
    reveal_with_fuel(Seq::filter, 1);
    assert(lines_of(prev).push(l).drop_last() =~= lines_of(prev));
    let base = lines_of(prev).filter(keep);
    if keep(l) {
        assert(lines_of(prev).push(l).filter(keep) == base.push(l));
        assert(base.push(l).map_values(fields) =~= base.map_values(fields).push(fields(l)));
    } else {
        assert(lines_of(prev).push(l).filter(keep) == base);
    }
}

} // verus!
