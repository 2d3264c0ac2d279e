//! Installing packages: where each requested package comes from, and what
//! is shown, logged and recorded in each mode (plan, dry run, real run).
//!
//! A package that is installed already is skipped; one found in the sync
//! databases comes from the official repositories; any other is built from
//! the AUR.

use vstd::prelude::*;
use crate::text::{decimal, decimal_string, join_spec, join_strings, views};
use crate::units::{format_bytes, format_bytes_spec};
use crate::pacman::{
    contains_str, transaction_total, txn_total, txn_view, TxnRow,
};
use crate::paths::aur_repo_url;
use crate::report::{
    append_effects, effect_views, log_pkg, per_package, per_package_spec, push_effect, record_pkg,
    show, show_fixed, show_pkg, show_pkg2, show_str, step_log_pkg, step_record, step_show_fixed,
    step_show_pkg, step_show_pkg2, steps_view, Effect, EffectV, Step, StepV, Tone,
};

verus! {

// ---------------------------------------------------------------------------
// Where packages come from
// ---------------------------------------------------------------------------

/// The packages of `ps` whose position satisfies `want`, in order.
pub open spec fn pick(ps: Seq<Seq<char>>, want: spec_fn(int) -> bool) -> Seq<Seq<char>>
    decreases ps.len(),
{
    if ps.len() == 0 {
        Seq::empty()
    } else {
        let rest = pick(ps.drop_last(), want);
        if want(ps.len() - 1) {
            rest.push(ps.last())
        } else {
            rest
        }
    }
}

/// The requested packages, by where they come from.
pub struct InstallSplit {
    /// In the sync databases and not installed.
    pub official: Vec<String>,
    /// Neither installed nor in the sync databases.
    pub aur: Vec<String>,
    /// Installed already.
    pub skip: Vec<String>,
}

/// Whether package `i` is installed already.
pub open spec fn is_skip(installed: Seq<bool>) -> spec_fn(int) -> bool {
    |i: int| installed[i]
}

/// Whether package `i` comes from the official repositories.
pub open spec fn is_official(installed: Seq<bool>, in_repos: Seq<bool>) -> spec_fn(int) -> bool {
    |i: int| !installed[i] && in_repos[i]
}

/// Whether package `i` comes from the AUR.
pub open spec fn is_aur(installed: Seq<bool>, in_repos: Seq<bool>) -> spec_fn(int) -> bool {
    |i: int| !installed[i] && !in_repos[i]
}

/// Splits the requested packages by where they come from; `installed[i]`
/// and `in_repos[i]` are the answers of pacman about package `i` (the second
/// is not looked at when the first is set).
pub fn classify_install(pkgs: &Vec<String>, installed: &Vec<bool>, in_repos: &Vec<bool>) -> (r:
    InstallSplit)
    requires
        installed.len() == pkgs.len(),
        in_repos.len() == pkgs.len(),
    ensures
        views(r.skip@) == pick(views(pkgs@), is_skip(installed@)),
        views(r.official@) == pick(views(pkgs@), is_official(installed@, in_repos@)),
        views(r.aur@) == pick(views(pkgs@), is_aur(installed@, in_repos@)),
{
    let ghost pv = views(pkgs@);
    let mut official: Vec<String> = Vec::new();
    let mut aur: Vec<String> = Vec::new();
    let mut skip: Vec<String> = Vec::new();
    let mut i: usize = 0;
    assert(pv.take(0) =~= Seq::<Seq<char>>::empty());
    while i < pkgs.len()
        invariant
            i <= pkgs.len(),
            installed.len() == pkgs.len(),
            in_repos.len() == pkgs.len(),
            pv == views(pkgs@),
            views(skip@) == pick(pv.take(i as int), is_skip(installed@)),
            views(official@) == pick(pv.take(i as int), is_official(installed@, in_repos@)),
            views(aur@) == pick(pv.take(i as int), is_aur(installed@, in_repos@)),
        decreases pkgs.len() - i,
    {
        assert(pv.take(i + 1).drop_last() =~= pv.take(i as int));
        assert(pv.take(i + 1).last() == pkgs@[i as int]@);
        let p = String::from_str(pkgs[i].as_str());
        if installed[i] {
            crate::report::push_string(&mut skip, p);
        } else if in_repos[i] {
            crate::report::push_string(&mut official, p);
        } else {
            crate::report::push_string(&mut aur, p);
        }
        i += 1;
    }
    assert(pv.take(pkgs.len() as int) =~= pv);
    InstallSplit { official, aur, skip }
}

/// No requested package is lost or counted twice: the sizes of the three
/// groups add up to the number of packages requested.
pub proof fn law_install_partition(ps: Seq<Seq<char>>, installed: Seq<bool>, in_repos: Seq<bool>)
    ensures
        pick(ps, is_skip(installed)).len() + pick(ps, is_official(installed, in_repos)).len()
            + pick(ps, is_aur(installed, in_repos)).len() == ps.len(),
    decreases ps.len(),
{
    if ps.len() > 0 {
        law_install_partition(ps.drop_last(), installed, in_repos);
    }
}

/// Each picked package is a package at a position that `want` accepts.
pub proof fn lemma_pick_from(ps: Seq<Seq<char>>, want: spec_fn(int) -> bool, k: int)
    requires
        0 <= k < pick(ps, want).len(),
    ensures
        exists|i: int| 0 <= i < ps.len() && want(i) && pick(ps, want)[k] == ps[i],
    decreases ps.len(),
{
    let rest = pick(ps.drop_last(), want);
    if k < rest.len() {
        lemma_pick_from(ps.drop_last(), want, k);
        let i = choose|i: int| 0 <= i < ps.drop_last().len() && want(i) && rest[k] == ps.drop_last()[i];
        assert(pick(ps, want)[k] == ps[i]);
    } else {
        assert(pick(ps, want)[k] == ps[ps.len() - 1]);
    }
}

/// A picked sequence is no longer than the whole.
pub proof fn lemma_pick_len(ps: Seq<Seq<char>>, want: spec_fn(int) -> bool)
    ensures
        pick(ps, want).len() <= ps.len(),
    decreases ps.len(),
{
    if ps.len() > 0 {
        lemma_pick_len(ps.drop_last(), want);
    }
}

// ---------------------------------------------------------------------------
// Texts
// ---------------------------------------------------------------------------

/// `install=N official=N aur=N skip=N`.
pub open spec fn install_counts(official: nat, aur: nat, skip: nat) -> Seq<char> {
    "install="@ + decimal(official + aur) + " official="@ + decimal(official) + " aur="@ + decimal(
        aur,
    ) + " skip="@ + decimal(skip)
}

/// See [`install_counts`].
pub fn install_counts_text(official: usize, aur: usize, skip: usize) -> (s: String)
    ensures
        s@ == install_counts(official as nat, aur as nat, skip as nat),
{
    let mut s = String::from_str("install=");
    s.append(decimal_string(official as u128 + aur as u128).as_str());
    s.append(" official=");
    s.append(decimal_string(official as u128).as_str());
    s.append(" aur=");
    s.append(decimal_string(aur as u128).as_str());
    s.append(" skip=");
    s.append(decimal_string(skip as u128).as_str());
    s
}

/// `<prefix><packages separated by spaces>`.
fn prefixed_list(prefix: &str, ps: &Vec<String>) -> (s: String)
    ensures
        s@ == prefix@ + join_spec(views(ps@), " "@),
{
    let mut s = String::from_str(prefix);
    s.append(join_strings(ps, " ").as_str());
    s
}

/// The message that starts an install request.
pub fn install_request_message(pkgs: &Vec<String>) -> (s: String)
    ensures
        s@ == "Install requested for packages: "@ + join_spec(views(pkgs@), " "@),
{
    prefixed_list("Install requested for packages: ", pkgs)
}

// ---------------------------------------------------------------------------
// Plan mode
// ---------------------------------------------------------------------------

/// How the plan explains each skipped package.
pub open spec fn plan_skip_steps() -> Seq<StepV> {
    seq![
        show_pkg(Tone::Plain, "  - "@, " -> skip"@),
        show_fixed(Tone::Plain, "    reason: already installed"@),
    ]
}

/// How the plan explains each official package.
pub open spec fn plan_official_steps() -> Seq<StepV> {
    seq![
        show_pkg(Tone::Plain, "  - "@, " -> install from official"@),
        show_fixed(Tone::Plain, "    reason: found in official repositories"@),
    ]
}

/// How the plan explains each AUR package.
pub open spec fn plan_aur_steps() -> Seq<StepV> {
    seq![
        show_pkg(Tone::Plain, "  - "@, " -> install from AUR"@),
        show_fixed(
            Tone::Plain,
            "    reason: not found in official repositories, fallback to AUR workflow"@,
        ),
    ]
}

/// The line of one package of the simulated transaction.
pub open spec fn txn_line(row: (Seq<char>, u64), official: Seq<Seq<char>>) -> Seq<char> {
    "  - "@ + row.0 + " ("@ + format_bytes_spec(row.1 as nat) + ", "@ + if official.contains(
        row.0,
    ) {
        "requested"@
    } else {
        "dependency"@
    } + ")"@
}

/// The section on the simulated official transaction (none when there are
/// no official packages).
pub open spec fn simulation_section(
    official: Seq<Seq<char>>,
    txn: Option<Seq<(Seq<char>, u64)>>,
) -> Seq<EffectV> {
    if official.len() == 0 {
        Seq::empty()
    } else {
        seq![EffectV::Show(Tone::Section, "PLAN: Official Transaction Simulation"@)] + match txn {
            Some(rows) => seq![
                EffectV::Show(
                    Tone::Info,
                    "Packages in transaction (requested + dependencies): "@ + decimal(rows.len()),
                ),
                EffectV::Show(
                    Tone::Info,
                    "Estimated download size: "@ + format_bytes_spec(txn_total(rows)),
                ),
            ] + rows.map_values(
                |r: (Seq<char>, u64)| EffectV::Show(Tone::Plain, txn_line(r, official)),
            ),
            None => seq![EffectV::Show(Tone::Warn, "Unable to simulate official transaction"@)],
        }
    }
}

/// The section on whether the AUR repositories answer (none when there are
/// no AUR packages).
pub open spec fn reachability_section(aur: Seq<Seq<char>>, reachable: Seq<bool>) -> Seq<EffectV> {
    if aur.len() == 0 {
        Seq::empty()
    } else {
        seq![EffectV::Show(Tone::Section, "PLAN: AUR Reachability"@)] + Seq::new(
            aur.len(),
            |i: int|
                if reachable[i] {
                    EffectV::Show(Tone::Success, aur[i] + " repository reachable"@)
                } else {
                    EffectV::Show(
                        Tone::Warn,
                        aur[i] + " repository not reachable or git unavailable"@,
                    )
                },
        )
    }
}

/// Everything `install --plan` shows and records, given the simulated
/// transaction of the official packages and whether each AUR repository
/// answers. Nothing is installed.
pub open spec fn install_plan_spec(
    official: Seq<Seq<char>>,
    aur: Seq<Seq<char>>,
    skip: Seq<Seq<char>>,
    txn: Option<Seq<(Seq<char>, u64)>>,
    reachable: Seq<bool>,
) -> Seq<EffectV> {
    seq![EffectV::Show(Tone::Section, "PLAN: Decision Analysis"@)] + per_package_spec(
        skip,
        plan_skip_steps(),
    ) + per_package_spec(official, plan_official_steps()) + per_package_spec(
        aur,
        plan_aur_steps(),
    ) + simulation_section(official, txn) + reachability_section(aur, reachable) + seq![
        EffectV::Show(Tone::Section, "PLAN: Summary"@),
        EffectV::Show(Tone::Info, install_counts(official.len(), aur.len(), skip.len())),
    ] + per_package_spec(
        skip,
        seq![record_pkg("install"@, "installed"@, "skipped"@, "plan:already installed"@)],
    ) + per_package_spec(
        official,
        seq![record_pkg("install"@, "official"@, "planned"@, "plan:found in official repositories"@)],
    ) + per_package_spec(
        aur,
        seq![record_pkg("install"@, "aur"@, "planned"@, "plan:not found in official repositories"@)],
    ) + seq![
        EffectV::Show(Tone::Plain, Seq::<char>::empty()),
        EffectV::Show(Tone::Success, "Plan completed (no changes applied)"@),
    ]
}

/// The view of an optional transaction.
pub open spec fn opt_txn_view(t: Option<Vec<TxnRow>>) -> Option<Seq<(Seq<char>, u64)>> {
    match t {
        Some(v) => Some(txn_view(v@)),
        None => None,
    }
}

/// Runs a sequence of steps over the packages of `ps`.
fn steps_over(ps: &Vec<String>, steps: Vec<Step>, out: &mut Vec<Effect>)
    ensures
        effect_views(final(out)@) == effect_views(old(out)@) + per_package_spec(
            views(ps@),
            steps_view(steps@),
        ),
{
    let more = per_package(ps, &steps);
    append_effects(out, more);
}

fn simulation_effects(official: &Vec<String>, txn: &Option<Vec<TxnRow>>) -> (r: Vec<Effect>)
    requires
        txn matches Some(t) ==> txn_total(txn_view(t@)) <= u64::MAX,
    ensures
        effect_views(r@) == simulation_section(views(official@), opt_txn_view(*txn)),
{
    let mut out: Vec<Effect> = Vec::new();
    if official.len() == 0 {
        assert(effect_views(out@) =~= Seq::<EffectV>::empty());
        return out;
    }
    push_effect(&mut out, show_str(Tone::Section, "PLAN: Official Transaction Simulation"));
    match txn {
        Some(rows) => {
            let mut m = String::from_str("Packages in transaction (requested + dependencies): ");
            m.append(decimal_string(rows.len() as u128).as_str());
            push_effect(&mut out, show(Tone::Info, m));
            let total = transaction_total(rows);
            let mut m2 = String::from_str("Estimated download size: ");
            m2.append(format_bytes(total).as_str());
            push_effect(&mut out, show(Tone::Info, m2));
            let ghost head = effect_views(out@);
            let ghost tv = txn_view(rows@);
            let ghost f = |r: (Seq<char>, u64)| EffectV::Show(Tone::Plain, txn_line(r, views(official@)));
            let mut i: usize = 0;
            while i < rows.len()
                invariant
                    i <= rows.len(),
                    tv == txn_view(rows@),
                    f == (|r: (Seq<char>, u64)| EffectV::Show(Tone::Plain, txn_line(r, views(official@)))),
                    effect_views(out@) == head + tv.take(i as int).map_values(f),
                decreases rows.len() - i,
            {
                let mut l = String::from_str("  - ");
                l.append(rows[i].0.as_str());
                l.append(" (");
                l.append(format_bytes(rows[i].1).as_str());
                l.append(", ");
                if contains_str(official, rows[i].0.as_str()) {
                    l.append("requested");
                } else {
                    l.append("dependency");
                }
                l.append(")");
                assert(tv[i as int] == (rows@[i as int].0@, rows@[i as int].1));
                push_effect(&mut out, show(Tone::Plain, l));
                i += 1;
                assert(effect_views(out@) =~= head + tv.take(i as int).map_values(f));
            }
            assert(tv.take(rows.len() as int) =~= tv);
        },
        None => {
            push_effect(&mut out, show_str(Tone::Warn, "Unable to simulate official transaction"));
        },
    }
    out
}

fn reachability_effects(aur: &Vec<String>, reachable: &Vec<bool>) -> (r: Vec<Effect>)
    requires
        reachable.len() == aur.len(),
    ensures
        effect_views(r@) == reachability_section(views(aur@), reachable@),
{
    let mut out: Vec<Effect> = Vec::new();
    if aur.len() == 0 {
        assert(effect_views(out@) =~= Seq::<EffectV>::empty());
        return out;
    }
    push_effect(&mut out, show_str(Tone::Section, "PLAN: AUR Reachability"));
    let ghost av = views(aur@);
    let ghost g = |i: int|
        if reachable@[i] {
            EffectV::Show(Tone::Success, av[i] + " repository reachable"@)
        } else {
            EffectV::Show(Tone::Warn, av[i] + " repository not reachable or git unavailable"@)
        };
    let mut i: usize = 0;
    while i < aur.len()
        invariant
            i <= aur.len(),
            reachable.len() == aur.len(),
            av == views(aur@),
            g == (|i: int|
                if reachable@[i] {
                    EffectV::Show(Tone::Success, av[i] + " repository reachable"@)
                } else {
                    EffectV::Show(Tone::Warn, av[i] + " repository not reachable or git unavailable"@)
                }),
            effect_views(out@) == seq![EffectV::Show(Tone::Section, "PLAN: AUR Reachability"@)]
                + Seq::new(i as nat, g),
        decreases aur.len() - i,
    {
        let mut m = String::from_str(aur[i].as_str());
        if reachable[i] {
            m.append(" repository reachable");
            push_effect(&mut out, show(Tone::Success, m));
        } else {
            m.append(" repository not reachable or git unavailable");
            push_effect(&mut out, show(Tone::Warn, m));
        }
        i += 1;
        assert(effect_views(out@) =~= seq![EffectV::Show(Tone::Section, "PLAN: AUR Reachability"@)]
            + Seq::new(i as nat, g));
    }
    out
}

/// Everything `install --plan` shows and records. `txn` is the simulated
/// transaction of the official packages and `reachable[i]` whether the AUR
/// repository of `split.aur[i]` answers.
#[verifier::spinoff_prover]
#[verifier::rlimit(40)]
pub fn install_plan(split: &InstallSplit, txn: &Option<Vec<TxnRow>>, reachable: &Vec<bool>) -> (r:
    Vec<Effect>)
    requires
        reachable.len() == split.aur.len(),
        txn matches Some(t) ==> txn_total(txn_view(t@)) <= u64::MAX,
    ensures
        effect_views(r@) == install_plan_spec(
            views(split.official@),
            views(split.aur@),
            views(split.skip@),
            opt_txn_view(*txn),
            reachable@,
        ),
{
    let mut out: Vec<Effect> = Vec::new();
    push_effect(&mut out, show_str(Tone::Section, "PLAN: Decision Analysis"));
    let s1 = vec![
        step_show_pkg(Tone::Plain, "  - ", " -> skip"),
        step_show_fixed(Tone::Plain, "    reason: already installed"),
    ];
    assert(steps_view(s1@) =~= plan_skip_steps());
    steps_over(&split.skip, s1, &mut out);
    let s2 = vec![
        step_show_pkg(Tone::Plain, "  - ", " -> install from official"),
        step_show_fixed(Tone::Plain, "    reason: found in official repositories"),
    ];
    assert(steps_view(s2@) =~= plan_official_steps());
    steps_over(&split.official, s2, &mut out);
    let s3 = vec![
        step_show_pkg(Tone::Plain, "  - ", " -> install from AUR"),
        step_show_fixed(
            Tone::Plain,
            "    reason: not found in official repositories, fallback to AUR workflow",
        ),
    ];
    assert(steps_view(s3@) =~= plan_aur_steps());
    steps_over(&split.aur, s3, &mut out);
    append_effects(&mut out, simulation_effects(&split.official, txn));
    append_effects(&mut out, reachability_effects(&split.aur, reachable));
    push_effect(&mut out, show_str(Tone::Section, "PLAN: Summary"));
    push_effect(
        &mut out,
        show(Tone::Info, install_counts_text(split.official.len(), split.aur.len(), split.skip.len())),
    );
    let r1 = vec![step_record("install", "installed", "skipped", "plan:already installed")];
    assert(steps_view(r1@) =~= seq![
        record_pkg("install"@, "installed"@, "skipped"@, "plan:already installed"@),
    ]);
    steps_over(&split.skip, r1, &mut out);
    let r2 = vec![step_record("install", "official", "planned", "plan:found in official repositories")];
    assert(steps_view(r2@) =~= seq![
        record_pkg("install"@, "official"@, "planned"@, "plan:found in official repositories"@),
    ]);
    steps_over(&split.official, r2, &mut out);
    let r3 = vec![step_record("install", "aur", "planned", "plan:not found in official repositories")];
    assert(steps_view(r3@) =~= seq![
        record_pkg("install"@, "aur"@, "planned"@, "plan:not found in official repositories"@),
    ]);
    steps_over(&split.aur, r3, &mut out);
    push_effect(&mut out, show(Tone::Plain, String::new()));
    push_effect(&mut out, show_str(Tone::Success, "Plan completed (no changes applied)"));
    assert(effect_views(out@) =~= install_plan_spec(
        views(split.official@),
        views(split.aur@),
        views(split.skip@),
        opt_txn_view(*txn),
        reachable@,
    ));
    out
}

// ---------------------------------------------------------------------------
// Dry run
// ---------------------------------------------------------------------------

/// The tail of the command shown for an AUR package in a dry run.
pub open spec fn aur_command_tail(yes: bool) -> Seq<char> {
    if yes {
        ".git && makepkg -si --noconfirm"@
    } else {
        ".git && makepkg -si"@
    }
}

/// Everything `install --dry-run` shows, logs and records: the commands that
/// would run, and nothing installed.
pub open spec fn install_dry_run_spec(
    pkgs: Seq<Seq<char>>,
    official: Seq<Seq<char>>,
    aur: Seq<Seq<char>>,
    skip: Seq<Seq<char>>,
    yes: bool,
) -> Seq<EffectV> {
    seq![
        EffectV::Log("Install dry-run requested for packages: "@ + join_spec(pkgs, " "@)),
        EffectV::Show(Tone::Section, "DRY-RUN: Execution Simulation"@),
        EffectV::Show(Tone::Info, "No package changes will be applied"@),
    ] + per_package_spec(
        skip,
        seq![
            show_pkg(Tone::Warn, ""@, " -> already installed (skip)"@),
            record_pkg("install"@, "installed"@, "skipped"@, "dry-run:already installed"@),
        ],
    ) + per_package_spec(
        official,
        seq![
            show_pkg2(Tone::Info, ""@, " -> would execute: sudo pacman -S "@, ""@),
            record_pkg("install"@, "official"@, "planned"@, "dry-run:found in official repositories"@),
        ],
    ) + per_package_spec(
        aur,
        seq![
            show_pkg2(
                Tone::Info,
                ""@,
                " -> would execute: git clone https://aur.archlinux.org/"@,
                aur_command_tail(yes),
            ),
            record_pkg("install"@, "aur"@, "planned"@, "dry-run:not found in official repositories"@),
        ],
    ) + seq![
        EffectV::Show(Tone::Plain, Seq::<char>::empty()),
        EffectV::Show(
            Tone::Info,
            "Execution summary: "@ + install_counts(official.len(), aur.len(), skip.len()),
        ),
        EffectV::Show(Tone::Success, "Dry-run completed (no changes applied)"@),
    ]
}

/// See [`install_dry_run_spec`].
pub fn install_dry_run(pkgs: &Vec<String>, split: &InstallSplit, yes: bool) -> (r: Vec<Effect>)
    ensures
        effect_views(r@) == install_dry_run_spec(
            views(pkgs@),
            views(split.official@),
            views(split.aur@),
            views(split.skip@),
            yes,
        ),
{
    let mut out: Vec<Effect> = Vec::new();
    push_effect(&mut out, Effect::Log(prefixed_list("Install dry-run requested for packages: ", pkgs)));
    push_effect(&mut out, show_str(Tone::Section, "DRY-RUN: Execution Simulation"));
    push_effect(&mut out, show_str(Tone::Info, "No package changes will be applied"));
    let s1 = vec![
        step_show_pkg(Tone::Warn, "", " -> already installed (skip)"),
        step_record("install", "installed", "skipped", "dry-run:already installed"),
    ];
    assert(steps_view(s1@) =~= seq![
        show_pkg(Tone::Warn, ""@, " -> already installed (skip)"@),
        record_pkg("install"@, "installed"@, "skipped"@, "dry-run:already installed"@),
    ]);
    steps_over(&split.skip, s1, &mut out);
    let s2 = vec![
        step_show_pkg2(Tone::Info, "", " -> would execute: sudo pacman -S ", ""),
        step_record("install", "official", "planned", "dry-run:found in official repositories"),
    ];
    assert(steps_view(s2@) =~= seq![
        show_pkg2(Tone::Info, ""@, " -> would execute: sudo pacman -S "@, ""@),
        record_pkg("install"@, "official"@, "planned"@, "dry-run:found in official repositories"@),
    ]);
    steps_over(&split.official, s2, &mut out);
    let tail = if yes {
        ".git && makepkg -si --noconfirm"
    } else {
        ".git && makepkg -si"
    };
    let s3 = vec![
        step_show_pkg2(Tone::Info, "", " -> would execute: git clone https://aur.archlinux.org/", tail),
        step_record("install", "aur", "planned", "dry-run:not found in official repositories"),
    ];
    assert(steps_view(s3@) =~= seq![
        show_pkg2(
            Tone::Info,
            ""@,
            " -> would execute: git clone https://aur.archlinux.org/"@,
            aur_command_tail(yes),
        ),
        record_pkg("install"@, "aur"@, "planned"@, "dry-run:not found in official repositories"@),
    ]);
    steps_over(&split.aur, s3, &mut out);
    push_effect(&mut out, show(Tone::Plain, String::new()));
    let mut m = String::from_str("Execution summary: ");
    m.append(install_counts_text(split.official.len(), split.aur.len(), split.skip.len()).as_str());
    push_effect(&mut out, show(Tone::Info, m));
    push_effect(&mut out, show_str(Tone::Success, "Dry-run completed (no changes applied)"));
    assert(effect_views(out@) =~= install_dry_run_spec(
        views(pkgs@),
        views(split.official@),
        views(split.aur@),
        views(split.skip@),
        yes,
    ));
    out
}

// ---------------------------------------------------------------------------
// Real run
// ---------------------------------------------------------------------------

/// What a real install shows before asking for confirmation; it ends with
/// `Nothing to install` when nothing is to be installed.
pub open spec fn install_outline_spec(
    official: Seq<Seq<char>>,
    aur: Seq<Seq<char>>,
    skip: Seq<Seq<char>>,
) -> Seq<EffectV> {
    seq![EffectV::Show(Tone::Section, "Execution Plan"@)] + (if official.len() > 0 {
        seq![EffectV::Show(Tone::Info, "Official repo targets: "@ + join_spec(official, " "@))]
    } else {
        Seq::empty()
    }) + (if aur.len() > 0 {
        seq![EffectV::Show(Tone::Info, "AUR targets: "@ + join_spec(aur, " "@))]
    } else {
        Seq::empty()
    }) + (if skip.len() > 0 {
        seq![EffectV::Show(Tone::Warn, "Skipped (already installed): "@ + join_spec(skip, " "@))]
    } else {
        Seq::empty()
    }) + seq![
        EffectV::Show(Tone::Plain, Seq::<char>::empty()),
        EffectV::Show(Tone::Info, "Summary: "@ + install_counts(official.len(), aur.len(), skip.len())),
    ] + (if official.len() + aur.len() == 0 {
        seq![EffectV::Show(Tone::Warn, "Nothing to install"@)]
    } else {
        Seq::empty()
    })
}

/// What a real install shows first, and whether there is anything to
/// install (if not, the install ends there, successfully).
pub fn install_outline(split: &InstallSplit) -> (r: (Vec<Effect>, bool))
    ensures
        effect_views(r.0@) == install_outline_spec(
            views(split.official@),
            views(split.aur@),
            views(split.skip@),
        ),
        r.1 == (split.official.len() + split.aur.len() > 0),
{
    let mut out: Vec<Effect> = Vec::new();
    push_effect(&mut out, show_str(Tone::Section, "Execution Plan"));
    if split.official.len() > 0 {
        push_effect(&mut out, show(Tone::Info, prefixed_list("Official repo targets: ", &split.official)));
    }
    if split.aur.len() > 0 {
        push_effect(&mut out, show(Tone::Info, prefixed_list("AUR targets: ", &split.aur)));
    }
    if split.skip.len() > 0 {
        push_effect(&mut out, show(Tone::Warn, prefixed_list("Skipped (already installed): ", &split.skip)));
    }
    push_effect(&mut out, show(Tone::Plain, String::new()));
    let mut m = String::from_str("Summary: ");
    m.append(install_counts_text(split.official.len(), split.aur.len(), split.skip.len()).as_str());
    push_effect(&mut out, show(Tone::Info, m));
    let proceed = split.official.len() > 0 || split.aur.len() > 0;
    if !proceed {
        push_effect(&mut out, show_str(Tone::Warn, "Nothing to install"));
    }
    assert(effect_views(out@) =~= install_outline_spec(
        views(split.official@),
        views(split.aur@),
        views(split.skip@),
    ));
    (out, proceed)
}

/// What happens when the user declines the install.
pub open spec fn install_cancel_spec(
    pkgs: Seq<Seq<char>>,
    official: Seq<Seq<char>>,
    aur: Seq<Seq<char>>,
) -> Seq<EffectV> {
    seq![
        EffectV::Show(Tone::Info, "Operation cancelled"@),
        EffectV::Log("Install cancelled by user for packages: "@ + join_spec(pkgs, " "@)),
    ] + per_package_spec(official, seq![record_pkg("install"@, "official"@, "cancelled"@, "user-cancel"@)])
        + per_package_spec(aur, seq![record_pkg("install"@, "aur"@, "cancelled"@, "user-cancel"@)])
}

/// See [`install_cancel_spec`].
pub fn install_cancelled(pkgs: &Vec<String>, split: &InstallSplit) -> (r: Vec<Effect>)
    ensures
        effect_views(r@) == install_cancel_spec(
            views(pkgs@),
            views(split.official@),
            views(split.aur@),
        ),
{
    let mut out: Vec<Effect> = Vec::new();
    push_effect(&mut out, show_str(Tone::Info, "Operation cancelled"));
    push_effect(&mut out, Effect::Log(prefixed_list("Install cancelled by user for packages: ", pkgs)));
    let r1 = vec![step_record("install", "official", "cancelled", "user-cancel")];
    assert(steps_view(r1@) =~= seq![record_pkg("install"@, "official"@, "cancelled"@, "user-cancel"@)]);
    steps_over(&split.official, r1, &mut out);
    let r2 = vec![step_record("install", "aur", "cancelled", "user-cancel")];
    assert(steps_view(r2@) =~= seq![record_pkg("install"@, "aur"@, "cancelled"@, "user-cancel"@)]);
    steps_over(&split.aur, r2, &mut out);
    out
}

/// What a confirmed install logs and records for the skipped packages.
pub open spec fn install_skips_spec(skip: Seq<Seq<char>>) -> Seq<EffectV> {
    per_package_spec(
        skip,
        seq![
            log_pkg("Skip install (already installed): "@, ""@),
            record_pkg("install"@, "installed"@, "skipped"@, "already-installed"@),
        ],
    )
}

/// See [`install_skips_spec`].
pub fn install_skips(split: &InstallSplit) -> (r: Vec<Effect>)
    ensures
        effect_views(r@) == install_skips_spec(views(split.skip@)),
{
    let s = vec![
        step_log_pkg("Skip install (already installed): ", ""),
        step_record("install", "installed", "skipped", "already-installed"),
    ];
    assert(steps_view(s@) =~= seq![
        log_pkg("Skip install (already installed): "@, ""@),
        record_pkg("install"@, "installed"@, "skipped"@, "already-installed"@),
    ]);
    per_package(&split.skip, &s)
}

/// What is shown and logged before the official packages are installed in
/// one pacman run.
pub open spec fn official_start_spec(official: Seq<Seq<char>>) -> Seq<EffectV> {
    seq![
        EffectV::Show(Tone::Info, "Installing official packages: "@ + join_spec(official, " "@)),
        EffectV::Log("Executing batch install for official packages: "@ + join_spec(official, " "@)),
    ]
}

/// See [`official_start_spec`].
pub fn official_start(official: &Vec<String>) -> (r: Vec<Effect>)
    ensures
        effect_views(r@) == official_start_spec(views(official@)),
{
    let mut out: Vec<Effect> = Vec::new();
    push_effect(&mut out, show(Tone::Info, prefixed_list("Installing official packages: ", official)));
    push_effect(&mut out, Effect::Log(prefixed_list("Executing batch install for official packages: ", official)));
    assert(effect_views(out@) =~= official_start_spec(views(official@)));
    out
}

/// What follows the pacman run for the official packages: each is recorded
/// as failed and the install fails, or each is announced and recorded as
/// installed.
pub open spec fn official_result_spec(official: Seq<Seq<char>>, ok: bool) -> Seq<EffectV> {
    if ok {
        per_package_spec(
            official,
            seq![
                show_pkg(Tone::Success, ""@, " installed"@),
                log_pkg("Install success: "@, ""@),
                record_pkg("install"@, "official"@, "success"@, ""@),
            ],
        )
    } else {
        per_package_spec(
            official,
            seq![record_pkg("install"@, "official"@, "failed"@, "pacman batch failure"@)],
        )
    }
}

/// See [`official_result_spec`]; the error is `Failed to install official
/// packages`.
pub fn official_result(official: &Vec<String>, ok: bool) -> (r: (Vec<Effect>, Result<(), String>))
    ensures
        effect_views(r.0@) == official_result_spec(views(official@), ok),
        r.1.is_ok() == ok,
        r.1 matches Err(m) ==> m@ == "Failed to install official packages"@,
{
    if ok {
        let s = vec![
            step_show_pkg(Tone::Success, "", " installed"),
            step_log_pkg("Install success: ", ""),
            step_record("install", "official", "success", ""),
        ];
        assert(steps_view(s@) =~= seq![
            show_pkg(Tone::Success, ""@, " installed"@),
            log_pkg("Install success: "@, ""@),
            record_pkg("install"@, "official"@, "success"@, ""@),
        ]);
        (per_package(official, &s), Ok(()))
    } else {
        let s = vec![step_record("install", "official", "failed", "pacman batch failure")];
        assert(steps_view(s@) =~= seq![
            record_pkg("install"@, "official"@, "failed"@, "pacman batch failure"@),
        ]);
        (per_package(official, &s), Err(String::from_str("Failed to install official packages")))
    }
}

/// What is shown and logged when an AUR package's turn comes, with the
/// directory it is built in.
pub open spec fn aur_start_spec(p: Seq<char>, dir: Seq<char>) -> Seq<EffectV> {
    seq![
        EffectV::Show(Tone::Info, "Installing "@ + p + " from AUR"@),
        EffectV::Log("Source detected for "@ + p + ": aur"@),
        EffectV::Log("AUR build directory: "@ + dir),
    ]
}

/// See [`aur_start_spec`].
pub fn aur_start(p: &str, dir: &str) -> (r: Vec<Effect>)
    ensures
        effect_views(r@) == aur_start_spec(p@, dir@),
{
    let mut out: Vec<Effect> = Vec::new();
    let mut m = String::from_str("Installing ");
    m.append(p);
    m.append(" from AUR");
    push_effect(&mut out, show(Tone::Info, m));
    let mut l = String::from_str("Source detected for ");
    l.append(p);
    l.append(": aur");
    push_effect(&mut out, Effect::Log(l));
    let mut d = String::from_str("AUR build directory: ");
    d.append(dir);
    push_effect(&mut out, Effect::Log(d));
    assert(effect_views(out@) =~= aur_start_spec(p@, dir@));
    out
}

/// The arguments of the git run that fetches the AUR package `p` into `dir`.
pub fn clone_args(p: &str, dir: &str) -> (r: Vec<String>)
    ensures
        views(r@) == seq!["clone"@, "https://aur.archlinux.org/"@ + p@ + ".git"@, dir@],
{
    let mut v: Vec<String> = Vec::new();
    crate::report::push_string(&mut v, String::from_str("clone"));
    crate::report::push_string(&mut v, aur_repo_url(p));
    crate::report::push_string(&mut v, String::from_str(dir));
    assert(views(v@) =~= seq!["clone"@, "https://aur.archlinux.org/"@ + p@ + ".git"@, dir@]);
    v
}

/// What follows a failed fetch of the AUR package `p`: the entry is
/// recorded as failed, and the install fails with `Failed to clone AUR
/// package: <p>`.
pub fn aur_clone_failed(p: &str) -> (r: (Vec<Effect>, String))
    ensures
        effect_views(r.0@) == seq![crate::report::rec("install"@, p@, "aur"@, "failed"@, "git clone failed"@)],
        r.1@ == "Failed to clone AUR package: "@ + p@,
{
    let mut out: Vec<Effect> = Vec::new();
    push_effect(&mut out, crate::report::record("install", p, "aur", "failed", "git clone failed"));
    assert(effect_views(out@) =~= seq![crate::report::rec("install"@, p@, "aur"@, "failed"@, "git clone failed"@)]);
    let mut m = String::from_str("Failed to clone AUR package: ");
    m.append(p);
    (out, m)
}

/// What follows the build of the AUR package `p`.
pub open spec fn aur_result_spec(p: Seq<char>, ok: bool) -> Seq<EffectV> {
    if ok {
        seq![
            EffectV::Show(Tone::Success, p + " installed"@),
            EffectV::Log("Install success: "@ + p),
            crate::report::rec("install"@, p, "aur"@, "success"@, ""@),
        ]
    } else {
        seq![crate::report::rec("install"@, p, "aur"@, "failed"@, "makepkg"@)]
    }
}

/// See [`aur_result_spec`]; a failed build fails the install with `Failed
/// install <p>`.
pub fn aur_result(p: &str, ok: bool) -> (r: (Vec<Effect>, Result<(), String>))
    ensures
        effect_views(r.0@) == aur_result_spec(p@, ok),
        r.1.is_ok() == ok,
        r.1 matches Err(m) ==> m@ == "Failed install "@ + p@,
{
    let mut out: Vec<Effect> = Vec::new();
    if ok {
        let mut m = String::from_str(p);
        m.append(" installed");
        push_effect(&mut out, show(Tone::Success, m));
        let mut l = String::from_str("Install success: ");
        l.append(p);
        push_effect(&mut out, Effect::Log(l));
        push_effect(&mut out, crate::report::record("install", p, "aur", "success", ""));
        assert(effect_views(out@) =~= aur_result_spec(p@, ok));
        (out, Ok(()))
    } else {
        push_effect(&mut out, crate::report::record("install", p, "aur", "failed", "makepkg"));
        assert(effect_views(out@) =~= aur_result_spec(p@, ok));
        let mut m = String::from_str("Failed install ");
        m.append(p);
        (out, Err(m))
    }
}

/// What ends a completed install.
pub fn install_done() -> (r: Vec<Effect>)
    ensures
        effect_views(r@) == seq![
            EffectV::Show(Tone::Plain, Seq::<char>::empty()),
            EffectV::Show(Tone::Success, "Install process completed"@),
        ],
{
    let mut out: Vec<Effect> = Vec::new();
    push_effect(&mut out, show(Tone::Plain, String::new()));
    push_effect(&mut out, show_str(Tone::Success, "Install process completed"));
    assert(effect_views(out@) =~= seq![
        EffectV::Show(Tone::Plain, Seq::<char>::empty()),
        EffectV::Show(Tone::Success, "Install process completed"@),
    ]);
    out
}

} // verus!
