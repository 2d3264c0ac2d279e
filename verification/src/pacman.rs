//! Reading what pacman prints, and the argument lists given to it.

use vstd::prelude::*;
use crate::text::{
    all_ws, is_blank, lines, lines_of, parse_u64, parse_u64_spec, split_by, split_char, eq_char,
    str_starts_with, starts_with, trim, trim_end, trim_end_str, trim_str, views, words, words_of,
    chars_of, string_of_range, str_eq,
};
use crate::report::push_string;

verus! {

// ---------------------------------------------------------------------------
// Transactions
// ---------------------------------------------------------------------------

/// A package of a simulated transaction: its name and size in bytes.
pub type TxnRow = (String, u64);

/// The abstract form of transaction rows.
pub open spec fn txn_view(t: Seq<TxnRow>) -> Seq<(Seq<char>, u64)> {
    t.map_values(|r: TxnRow| (r.0@, r.1))
}

/// The row read from one line of `--print-format '%n|%s'` output: the text
/// before the first `|` is the name, the rest (trimmed) must be a byte count.
pub open spec fn txn_row_of(l: Seq<char>) -> Option<(Seq<char>, u64)> {
    let parts = split_by(l, eq_char('|'));
    if parts.len() < 2 {
        None
    } else {
        match parse_u64_spec(trim(l.skip(parts[0].len() + 1int))) {
            Some(n) => Some((parts[0], n)),
            None => None,
        }
    }
}

/// The rows of a simulated transaction, read from pacman's output; lines
/// that do not hold a row are skipped.
pub open spec fn txn_rows(text: Seq<char>) -> Seq<(Seq<char>, u64)> {
    lines_of(text).filter(|l: Seq<char>| txn_row_of(l) is Some).map_values(
        |l: Seq<char>| txn_row_of(l)->0,
    )
}

/// The simulated transaction: its rows, or nothing when there are none.
pub open spec fn parse_transaction_spec(text: Seq<char>) -> Option<Seq<(Seq<char>, u64)>> {
    if txn_rows(text).len() == 0 {
        None
    } else {
        Some(txn_rows(text))
    }
}

/// The sum of the sizes of a transaction.
pub open spec fn txn_total(rows: Seq<(Seq<char>, u64)>) -> nat
    decreases rows.len(),
{
    if rows.len() == 0 {
        0
    } else {
        txn_total(rows.drop_last()) + rows.last().1 as nat
    }
}

/// The row of one output line.
fn txn_row(l: &str) -> (r: Option<TxnRow>)
    ensures
        match r {
            Some(x) => txn_row_of(l@) == Some((x.0@, x.1)),
            None => txn_row_of(l@) is None,
        },
{
    let parts = split_char(l, '|');
    if parts.len() < 2 {
        return None;
    }
    let v = chars_of(l);
    let n0 = parts[0].as_str().unicode_len();
    proof {
        crate::text::lemma_split_by_nonempty(l@, eq_char('|'));
        lemma_first_piece(l@, '|');
    }
    let rest = string_of_range(&v, n0 + 1, v.len());
    assert(rest@ == l@.skip(parts@[0]@.len() + 1int));
    let t = trim_str(rest.as_str());
    match parse_u64(t.as_str()) {
        Some(n) => Some((String::from_str(parts[0].as_str()), n)),
        None => None,
    }
}

/// When there are at least two pieces, the first one is followed by the
/// separator.
pub proof fn lemma_first_piece(s: Seq<char>, c: char)
    ensures
        split_by(s, eq_char(c)).len() >= 2 ==> split_by(s, eq_char(c))[0].len() < s.len() && s[
            split_by(s, eq_char(c))[0].len() as int] == c,
    decreases s.len(),
{
    crate::text::lemma_split_by_nonempty(s, eq_char(c));
    if s.len() > 0 {
        let rest = split_by(s.drop_last(), eq_char(c));
        crate::text::lemma_split_by_nonempty(s.drop_last(), eq_char(c));
        lemma_first_piece(s.drop_last(), c);
        if rest.len() >= 2 {
            assert(split_by(s, eq_char(c))[0] == rest[0]);
            assert(s[rest[0].len() as int] == s.drop_last()[rest[0].len() as int]);
        } else {
            if s.last() == c {
                assert(split_by(s, eq_char(c))[0] == rest[0]);
                lemma_single_piece(s.drop_last(), c);
            }
        }
    }
}

/// A single piece is the whole text.
proof fn lemma_single_piece(s: Seq<char>, c: char)
    ensures
        split_by(s, eq_char(c)).len() == 1 ==> split_by(s, eq_char(c))[0] == s,
    decreases s.len(),
{
    crate::text::lemma_split_by_nonempty(s, eq_char(c));
    if s.len() > 0 {
        crate::text::lemma_split_by_nonempty(s.drop_last(), eq_char(c));
        lemma_single_piece(s.drop_last(), c);
        if s.last() != c && split_by(s, eq_char(c)).len() == 1 {
            assert(split_by(s, eq_char(c))[0] =~= s.drop_last().push(s.last()));
            assert(s.drop_last().push(s.last()) =~= s);
        }
    } else {
        assert(split_by(s, eq_char(c))[0] =~= s);
    }
}

/// The abstract form of a captured run: its success and standard output,
/// or nothing when it could not be started.
pub open spec fn capture_view(c: Option<(bool, String)>) -> Option<(bool, Seq<char>)> {
    match c {
        Some((b, t)) => Some((b, t@)),
        None => None,
    }
}

/// The transaction that a simulation shows, from the outcome of running
/// it: none when pacman could not be started, failed, or printed no
/// `name|size` line; otherwise its rows, in line order.
pub open spec fn simulated_transaction(c: Option<(bool, Seq<char>)>) -> Option<Seq<(Seq<char>, u64)>> {
    match c {
        Some((true, t)) => parse_transaction_spec(t),
        _ => None,
    }
}

/// See [`simulated_transaction`].
pub fn read_simulation(c: &Option<(bool, String)>) -> (r: Option<Vec<TxnRow>>)
    ensures
        match r {
            Some(v) => simulated_transaction(capture_view(*c)) == Some(txn_view(v@)),
            None => simulated_transaction(capture_view(*c)) is None,
        },
{
    match c {
        Some((true, text)) => parse_transaction(text.as_str()),
        _ => None,
    }
}

/// The rows of a simulated transaction (pacman `--print-format '%n|%s'`
/// output), or `None` when no line holds a row.
pub fn parse_transaction(text: &str) -> (r: Option<Vec<TxnRow>>)
    ensures
        match r {
            Some(v) => parse_transaction_spec(text@) == Some(txn_view(v@)),
            None => parse_transaction_spec(text@) is None,
        },
{
    let ls = lines(text);
    let ghost keep = |l: Seq<char>| txn_row_of(l) is Some;
    let ghost get = |l: Seq<char>| txn_row_of(l)->0;
    let mut rows: Vec<TxnRow> = Vec::new();
    let mut i: usize = 0;
    assert(views(ls@).take(0) =~= Seq::<Seq<char>>::empty());
    reveal_with_fuel(Seq::filter, 1);
    while i < ls.len()
        invariant
            i <= ls.len(),
            views(ls@) == lines_of(text@),
            keep == (|l: Seq<char>| txn_row_of(l) is Some),
            get == (|l: Seq<char>| txn_row_of(l)->0),
            txn_view(rows@) == views(ls@).take(i as int).filter(keep).map_values(get),
        decreases ls.len() - i,
    {
        let ghost lv = views(ls@)[i as int];
        let ghost pre = views(ls@).take(i as int);
        assert(views(ls@).take(i + 1).drop_last() =~= pre);
        assert(views(ls@).take(i + 1).last() == lv);
        assert(ls@[i as int]@ == lv);
        reveal_with_fuel(Seq::filter, 1);
        match txn_row(ls[i].as_str()) {
            Some(x) => {
                let ghost old_rows = txn_view(rows@);
                let ghost xv = (x.0@, x.1);
                rows.push(x);
                assert(txn_view(rows@) =~= old_rows.push(xv));
                assert(pre.filter(keep).push(lv).map_values(get) =~= pre.filter(keep).map_values(
                    get,
                ).push(get(lv)));
            },
            None => {},
        }
        i += 1;
    }
    assert(views(ls@).take(ls.len() as int) =~= views(ls@));
    if rows.len() == 0 {
        None
    } else {
        Some(rows)
    }
}

/// The sum of the sizes of a transaction, which must fit in a `u64`.
pub fn transaction_total(rows: &Vec<TxnRow>) -> (t: u64)
    requires
        txn_total(txn_view(rows@)) <= u64::MAX,
    ensures
        t == txn_total(txn_view(rows@)),
{
    let ghost tv = txn_view(rows@);
    let mut t: u64 = 0;
    let mut i: usize = 0;
    assert(tv.take(0) =~= Seq::<(Seq<char>, u64)>::empty());
    while i < rows.len()
        invariant
            i <= rows.len(),
            tv == txn_view(rows@),
            txn_total(tv) <= u64::MAX,
            t == txn_total(tv.take(i as int)),
        decreases rows.len() - i,
    {
        assert(tv.take(i + 1).drop_last() =~= tv.take(i as int));
        proof {
            lemma_txn_total_prefix(tv, i + 1);
        }
        t = t + rows[i].1;
        i += 1;
    }
    assert(tv.take(rows.len() as int) =~= tv);
    t
}

/// A prefix of a transaction weighs no more than the whole.
pub proof fn lemma_txn_total_prefix(rows: Seq<(Seq<char>, u64)>, k: int)
    requires
        0 <= k <= rows.len(),
    ensures
        txn_total(rows.take(k)) <= txn_total(rows),
    decreases rows.len(),
{
    if k < rows.len() {
        assert(rows.drop_last().take(k) =~= rows.take(k));
        lemma_txn_total_prefix(rows.drop_last(), k);
    } else {
        assert(rows.take(k) =~= rows);
    }
}

/// The sum of the sizes, or `None` when it does not fit in a `u64`.
pub fn checked_transaction_total(rows: &Vec<TxnRow>) -> (t: Option<u64>)
    ensures
        match t {
            Some(n) => n == txn_total(txn_view(rows@)),
            None => txn_total(txn_view(rows@)) > u64::MAX,
        },
{
    let ghost tv = txn_view(rows@);
    let mut t: u64 = 0;
    let mut i: usize = 0;
    assert(tv.take(0) =~= Seq::<(Seq<char>, u64)>::empty());
    while i < rows.len()
        invariant
            i <= rows.len(),
            tv == txn_view(rows@),
            t == txn_total(tv.take(i as int)),
        decreases rows.len() - i,
    {
        assert(tv.take(i + 1).drop_last() =~= tv.take(i as int));
        match t.checked_add(rows[i].1) {
            Some(n) => {
                t = n;
            },
            None => {
                proof {
                    lemma_txn_total_prefix(tv, i + 1);
                }
                return None;
            },
        }
        i += 1;
    }
    assert(tv.take(rows.len() as int) =~= tv);
    Some(t)
}

/// Whether `name` is one of `v`.
pub fn contains_str(v: &Vec<String>, name: &str) -> (b: bool)
    ensures
        b == views(v@).contains(name@),
{
    let mut i: usize = 0;
    while i < v.len()
        invariant
            i <= v.len(),
            forall|k: int| 0 <= k < i ==> views(v@)[k] != name@,
        decreases v.len() - i,
    {
        if str_eq(v[i].as_str(), name) {
            assert(views(v@)[i as int] == name@);
            return true;
        }
        i += 1;
    }
    false
}

// ---------------------------------------------------------------------------
// Other output
// ---------------------------------------------------------------------------

/// The first of `ls` that begins with `prefix`.
pub open spec fn first_with_prefix(ls: Seq<Seq<char>>, prefix: Seq<char>) -> Option<Seq<char>>
    decreases ls.len(),
{
    if ls.len() == 0 {
        None
    } else if starts_with(ls[0], prefix) {
        Some(ls[0])
    } else {
        first_with_prefix(ls.drop_first(), prefix)
    }
}

/// The value of the `Installed Size` field of `pacman -Qi` output: the text
/// after the first `:` of the first line that begins with `Installed Size`,
/// trimmed; nothing when there is no such line or it holds no `:`.
pub open spec fn installed_size_spec(text: Seq<char>) -> Option<Seq<char>> {
    match first_with_prefix(lines_of(text), "Installed Size"@) {
        Some(l) => {
            let ps = split_by(l, eq_char(':'));
            if ps.len() >= 2 {
                Some(trim(ps[1]))
            } else {
                None
            }
        },
        None => None,
    }
}

/// The installed size that `pacman -Qi` reports.
pub fn installed_size(text: &str) -> (r: Option<String>)
    ensures
        match r {
            Some(s) => installed_size_spec(text@) == Some(s@),
            None => installed_size_spec(text@) is None,
        },
{
    let ls = lines(text);
    let ghost lv = views(ls@);
    let mut i: usize = 0;
    assert(lv.skip(0) =~= lv);
    while i < ls.len()
        invariant
            i <= ls.len(),
            lv == views(ls@),
            lv == lines_of(text@),
            first_with_prefix(lv, "Installed Size"@) == first_with_prefix(
                lv.skip(i as int),
                "Installed Size"@,
            ),
        decreases ls.len() - i,
    {
        assert(lv.skip(i as int)[0] == ls@[i as int]@);
        if str_starts_with(ls[i].as_str(), "Installed Size") {
            let ps = split_char(ls[i].as_str(), ':');
            if ps.len() >= 2 {
                let t = trim_str(ps[1].as_str());
                return Some(t);
            } else {
                return None;
            }
        }
        assert(lv.skip(i as int).drop_first() =~= lv.skip(i + 1));
        i += 1;
    }
    None
}

/// The number of lines of `text` that are not blank.
pub open spec fn nonblank_count(text: Seq<char>) -> nat {
    lines_of(text).filter(|l: Seq<char>| !all_ws(l)).len()
}

/// How many lines of `text` are not blank.
pub fn count_nonblank_lines(text: &str) -> (n: usize)
    ensures
        n == nonblank_count(text@),
{
    let ls = lines(text);
    let ghost lv = views(ls@);
    let ghost keep = |l: Seq<char>| !all_ws(l);
    let mut n: usize = 0;
    let mut i: usize = 0;
    assert(lv.take(0) =~= Seq::<Seq<char>>::empty());
    reveal_with_fuel(Seq::filter, 1);
    while i < ls.len()
        invariant
            i <= ls.len(),
            lv == views(ls@),
            lv == lines_of(text@),
            keep == (|l: Seq<char>| !all_ws(l)),
            n == lv.take(i as int).filter(keep).len(),
            n <= i,
        decreases ls.len() - i,
    {
        assert(lv.take(i + 1).drop_last() =~= lv.take(i as int));
        assert(lv.take(i + 1).last() == ls@[i as int]@);
        reveal_with_fuel(Seq::filter, 1);
        if !is_blank(ls[i].as_str()) {
            n += 1;
        }
        i += 1;
    }
    assert(lv.take(ls.len() as int) =~= lv);
    n
}

/// The pending updates: the output with trailing whitespace removed, and
/// how many non-blank lines it has.
pub fn pending_updates(stdout: &str) -> (r: (String, usize))
    ensures
        r.0@ == trim_end(stdout@),
        r.1 == nonblank_count(trim_end(stdout@)),
{
    let t = trim_end_str(stdout);
    let n = count_nonblank_lines(t.as_str());
    (t, n)
}

/// A pending update: package, current version, new version.
pub type UpdateEntry = (String, String, String);

/// The abstract form of update entries.
pub open spec fn updates_view(v: Seq<UpdateEntry>) -> Seq<(Seq<char>, Seq<char>, Seq<char>)> {
    v.map_values(|e: UpdateEntry| (e.0@, e.1@, e.2@))
}

/// The update read from one line `pkg old -> new`: its first, second and
/// fourth words, when it has at least four.
pub open spec fn update_entry_of(l: Seq<char>) -> Option<(Seq<char>, Seq<char>, Seq<char>)> {
    let w = words_of(l);
    if w.len() >= 4 {
        Some((w[0], w[1], w[3]))
    } else {
        None
    }
}

/// The updates listed in `text`, one per line; other lines are skipped.
pub open spec fn update_entries_spec(text: Seq<char>) -> Seq<(Seq<char>, Seq<char>, Seq<char>)> {
    lines_of(text).filter(|l: Seq<char>| update_entry_of(l) is Some).map_values(
        |l: Seq<char>| update_entry_of(l)->0,
    )
}

/// The updates listed by `checkupdates` (or `pacman -Qu`).
pub fn update_entries(text: &str) -> (r: Vec<UpdateEntry>)
    ensures
        updates_view(r@) == update_entries_spec(text@),
{
    let ls = lines(text);
    let ghost lv = views(ls@);
    let ghost keep = |l: Seq<char>| update_entry_of(l) is Some;
    let ghost get = |l: Seq<char>| update_entry_of(l)->0;
    let mut out: Vec<UpdateEntry> = Vec::new();
    let mut i: usize = 0;
    assert(lv.take(0) =~= Seq::<Seq<char>>::empty());
    reveal_with_fuel(Seq::filter, 1);
    while i < ls.len()
        invariant
            i <= ls.len(),
            lv == views(ls@),
            lv == lines_of(text@),
            keep == (|l: Seq<char>| update_entry_of(l) is Some),
            get == (|l: Seq<char>| update_entry_of(l)->0),
            updates_view(out@) == lv.take(i as int).filter(keep).map_values(get),
        decreases ls.len() - i,
    {
        let ghost l = lv[i as int];
        let ghost pre = lv.take(i as int);
        assert(lv.take(i + 1).drop_last() =~= pre);
        assert(lv.take(i + 1).last() == l);
        assert(ls@[i as int]@ == l);
        reveal_with_fuel(Seq::filter, 1);
        let w = words(ls[i].as_str());
        if w.len() >= 4 {
            let e = (
                String::from_str(w[0].as_str()),
                String::from_str(w[1].as_str()),
                String::from_str(w[3].as_str()),
            );
            assert(views(w@)[0] == w@[0]@ && views(w@)[1] == w@[1]@ && views(w@)[3] == w@[3]@);
            let ghost old_out = updates_view(out@);
            let ghost ev = (e.0@, e.1@, e.2@);
            out.push(e);
            assert(updates_view(out@) =~= old_out.push(ev));
            assert(pre.filter(keep).push(l).map_values(get) =~= pre.filter(keep).map_values(
                get,
            ).push(get(l)));
        }
        i += 1;
    }
    assert(lv.take(ls.len() as int) =~= lv);
    out
}

// ---------------------------------------------------------------------------
// Argument lists
// ---------------------------------------------------------------------------

/// `v` followed by `--noconfirm` when `yes` is set.
pub open spec fn with_noconfirm(v: Seq<Seq<char>>, yes: bool) -> Seq<Seq<char>> {
    if yes {
        v.push("--noconfirm"@)
    } else {
        v
    }
}

/// A vector of strings from string slices.
fn strings(parts: &[&str]) -> (r: Vec<String>)
    ensures
        views(r@) == parts@.map_values(|s: &str| s@),
{
    let mut out: Vec<String> = Vec::new();
    let mut i: usize = 0;
    while i < parts.len()
        invariant
            i <= parts.len(),
            views(out@) == parts@.take(i as int).map_values(|s: &str| s@),
        decreases parts.len() - i,
    {
        push_string(&mut out, String::from_str(parts[i]));
        i += 1;
        assert(views(out@) =~= parts@.take(i as int).map_values(|s: &str| s@));
    }
    assert(parts@.take(parts.len() as int) =~= parts@);
    out
}

/// Appends copies of `more` to `v`.
fn extend_strings(v: &mut Vec<String>, more: &Vec<String>)
    ensures
        views(final(v)@) == views(old(v)@) + views(more@),
{
    let mut i: usize = 0;
    while i < more.len()
        invariant
            i <= more.len(),
            views(v@) == views(old(v)@) + views(more@).take(i as int),
        decreases more.len() - i,
    {
        push_string(v, String::from_str(more[i].as_str()));
        i += 1;
        assert(views(v@) =~= views(old(v)@) + views(more@).take(i as int));
    }
    assert(views(more@).take(more.len() as int) =~= views(more@));
}

/// Appends `--noconfirm` when `yes` is set.
fn add_noconfirm(v: &mut Vec<String>, yes: bool)
    ensures
        views(final(v)@) == with_noconfirm(views(old(v)@), yes),
{
    if yes {
        push_string(v, String::from_str("--noconfirm"));
    }
}

/// The arguments of a pacman run that only prints the packages an install
/// (or, with `remove`, a removal) of `pkgs` would touch, with their sizes;
/// nothing to run when there are no packages.
pub open spec fn simulation_args_spec(remove: bool, pkgs: Seq<Seq<char>>) -> Option<Seq<Seq<char>>> {
    if pkgs.len() == 0 {
        None
    } else {
        Some(
            seq![
                if remove {
                    "-Rns"@
                } else {
                    "-S"@
                },
                "--print"@,
                "--print-format"@,
                "%n|%s"@,
            ] + pkgs,
        )
    }
}

/// The install and removal simulations ask pacman for the same listing of
/// the same packages, `--print --print-format %n|%s`, and differ only in the
/// operation (`-S` or `-Rns`); neither runs anything for no packages.
pub proof fn law_simulations_differ_only_in_operation(pkgs: Seq<Seq<char>>)
    ensures
        simulation_args_spec(false, pkgs) is None <==> pkgs.len() == 0,
        simulation_args_spec(true, pkgs) is None <==> pkgs.len() == 0,
        pkgs.len() > 0 ==> simulation_args_spec(false, pkgs)->0[0] == "-S"@,
        pkgs.len() > 0 ==> simulation_args_spec(true, pkgs)->0[0] == "-Rns"@,
        pkgs.len() > 0 ==> simulation_args_spec(true, pkgs)->0 == simulation_args_spec(false, pkgs)->0.update(
            0,
            "-Rns"@,
        ),
{
    if pkgs.len() > 0 {
        assert(simulation_args_spec(true, pkgs)->0 =~= simulation_args_spec(false, pkgs)->0.update(
            0,
            "-Rns"@,
        ));
    }
}

/// See [`simulation_args_spec`].
pub fn simulation_args(remove: bool, pkgs: &Vec<String>) -> (r: Option<Vec<String>>)
    ensures
        match r {
            Some(v) => simulation_args_spec(remove, views(pkgs@)) == Some(views(v@)),
            None => simulation_args_spec(remove, views(pkgs@)) is None,
        },
{
    if pkgs.len() == 0 {
        return None;
    }
    let mut v = strings(&[if remove { "-Rns" } else { "-S" }, "--print", "--print-format", "%n|%s"]);
    extend_strings(&mut v, pkgs);
    Some(v)
}

/// The arguments of the pacman run that installs `official`.
pub fn install_args(official: &Vec<String>, yes: bool) -> (r: Vec<String>)
    ensures
        views(r@) == with_noconfirm(seq!["-S"@, "--needed"@] + views(official@), yes),
{
    let mut v = strings(&["-S", "--needed"]);
    extend_strings(&mut v, official);
    add_noconfirm(&mut v, yes);
    v
}

/// The arguments of the pacman run that removes `targets` with their
/// unneeded dependencies.
pub fn remove_args(targets: &Vec<String>, yes: bool) -> (r: Vec<String>)
    ensures
        views(r@) == with_noconfirm(seq!["-Rns"@] + views(targets@), yes),
{
    let mut v = strings(&["-Rns"]);
    extend_strings(&mut v, targets);
    add_noconfirm(&mut v, yes);
    v
}

/// The arguments of the pacman run that upgrades the system.
pub fn update_args(yes: bool) -> (r: Vec<String>)
    ensures
        views(r@) == with_noconfirm(seq!["-Syu"@], yes),
{
    let mut v = strings(&["-Syu"]);
    add_noconfirm(&mut v, yes);
    v
}

/// The arguments of the makepkg run that builds and installs a package.
pub fn makepkg_args(yes: bool) -> (r: Vec<String>)
    ensures
        views(r@) == with_noconfirm(seq!["-si"@], yes),
{
    let mut v = strings(&["-si"]);
    add_noconfirm(&mut v, yes);
    v
}

/// The program and arguments actually run: through `sudo --` when root
/// rights are asked for and the user is not root, unchanged otherwise.
pub open spec fn elevated_spec(
    program: Seq<char>,
    args: Seq<Seq<char>>,
    sudo: bool,
    nonroot: bool,
) -> (Seq<char>, Seq<Seq<char>>) {
    if sudo && nonroot {
        ("sudo"@, seq!["--"@, program] + args)
    } else {
        (program, args)
    }
}

/// See [`elevated_spec`].
pub fn elevated(program: &str, args: &Vec<String>, sudo: bool, nonroot: bool) -> (r: (
    String,
    Vec<String>,
))
    ensures
        (r.0@, views(r.1@)) == elevated_spec(program@, views(args@), sudo, nonroot),
{
    if sudo && nonroot {
        let mut v = strings(&["--", program]);
        extend_strings(&mut v, args);
        (String::from_str("sudo"), v)
    } else {
        let mut v: Vec<String> = Vec::new();
        extend_strings(&mut v, args);
        assert(views(v@) =~= views(args@));
        (String::from_str(program), v)
    }
}

} // verus!
