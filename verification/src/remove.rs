//! Removing packages: which requested packages are installed, and what is
//! shown, logged and recorded in each mode (plan, dry run, real run).

use vstd::prelude::*;
use crate::text::{decimal, decimal_string, join_spec, join_strings, views};
use crate::units::{format_bytes, format_bytes_spec};
use crate::pacman::{transaction_total, txn_total, txn_view, TxnRow};
use crate::install::{opt_txn_view, pick};
use crate::report::{
    append_effects, effect_views, per_package, per_package_spec, push_effect, record_pkg, show,
    show_fixed, show_pkg, show_pkg2, show_str, step_record, step_show_fixed, step_show_pkg,
    step_show_pkg2, steps_view, Effect, EffectV, Step, Tone,
};

verus! {

/// The requested packages, by whether they are installed.
pub struct RemoveSplit {
    /// Installed: to be removed.
    pub targets: Vec<String>,
    /// Not installed: skipped.
    pub missing: Vec<String>,
}

/// Splits the requested packages by whether pacman knows them as installed
/// (`installed[i]` for package `i`), keeping their order.
pub fn classify_remove(pkgs: &Vec<String>, installed: &Vec<bool>) -> (r: RemoveSplit)
    requires
        installed.len() == pkgs.len(),
    ensures
        views(r.targets@) == pick(views(pkgs@), |i: int| installed@[i]),
        views(r.missing@) == pick(views(pkgs@), |i: int| !installed@[i]),
{
    let ghost pv = views(pkgs@);
    let mut targets: Vec<String> = Vec::new();
    let mut missing: Vec<String> = Vec::new();
    let mut i: usize = 0;
    assert(pv.take(0) =~= Seq::<Seq<char>>::empty());
    while i < pkgs.len()
        invariant
            i <= pkgs.len(),
            installed.len() == pkgs.len(),
            pv == views(pkgs@),
            views(targets@) == pick(pv.take(i as int), |i: int| installed@[i]),
            views(missing@) == pick(pv.take(i as int), |i: int| !installed@[i]),
        decreases pkgs.len() - i,
    {
        assert(pv.take(i + 1).drop_last() =~= pv.take(i as int));
        assert(pv.take(i + 1).last() == pkgs@[i as int]@);
        let p = String::from_str(pkgs[i].as_str());
        if installed[i] {
            crate::report::push_string(&mut targets, p);
        } else {
            crate::report::push_string(&mut missing, p);
        }
        i += 1;
    }
    assert(pv.take(pkgs.len() as int) =~= pv);
    RemoveSplit { targets, missing }
}

/// No requested package is lost or counted twice: the targets and the
/// skipped packages together number the packages requested.
pub proof fn law_remove_partition(ps: Seq<Seq<char>>, installed: Seq<bool>)
    ensures
        pick(ps, |i: int| installed[i]).len() + pick(ps, |i: int| !installed[i]).len() == ps.len(),
    decreases ps.len(),
{
    if ps.len() > 0 {
        law_remove_partition(ps.drop_last(), installed);
    }
}

/// `remove=N skip=N`.
pub open spec fn remove_counts(targets: nat, missing: nat) -> Seq<char> {
    "remove="@ + decimal(targets) + " skip="@ + decimal(missing)
}

/// See [`remove_counts`].
pub fn remove_counts_text(targets: usize, missing: usize) -> (s: String)
    ensures
        s@ == remove_counts(targets as nat, missing as nat),
{
    let mut s = String::from_str("remove=");
    s.append(decimal_string(targets as u128).as_str());
    s.append(" skip=");
    s.append(decimal_string(missing as u128).as_str());
    s
}

fn prefixed_list(prefix: &str, ps: &Vec<String>) -> (s: String)
    ensures
        s@ == prefix@ + join_spec(views(ps@), " "@),
{
    let mut s = String::from_str(prefix);
    s.append(join_strings(ps, " ").as_str());
    s
}

/// The message that starts a removal request.
pub fn remove_request_message(pkgs: &Vec<String>) -> (s: String)
    ensures
        s@ == "Remove requested for packages: "@ + join_spec(views(pkgs@), " "@),
{
    prefixed_list("Remove requested for packages: ", pkgs)
}

fn steps_over(ps: &Vec<String>, steps: Vec<Step>, out: &mut Vec<Effect>)
    ensures
        effect_views(final(out)@) == effect_views(old(out)@) + per_package_spec(
            views(ps@),
            steps_view(steps@),
        ),
{
    let more = per_package(ps, &steps);
    append_effects(out, more);
}

// ---------------------------------------------------------------------------
// Plan mode
// ---------------------------------------------------------------------------

/// The line of one package of the simulated removal.
pub open spec fn removal_line(row: (Seq<char>, u64)) -> Seq<char> {
    "  - "@ + row.0 + " ("@ + format_bytes_spec(row.1 as nat) + ")"@
}

/// The line about one target when the removal could not be simulated,
/// given the installed size that `pacman -Qi` reports for it.
pub open spec fn fallback_line(t: Seq<char>, size: Option<Seq<char>>) -> EffectV {
    match size {
        Some(s) => EffectV::Show(Tone::Info, "Estimated freed size for "@ + t + ": "@ + s),
        None => EffectV::Show(Tone::Warn, "Unable to simulate remove dependency tree for "@ + t),
    }
}

/// The section on what the removal would free (none when nothing is
/// installed).
pub open spec fn impact_section(
    targets: Seq<Seq<char>>,
    txn: Option<Seq<(Seq<char>, u64)>>,
    sizes: Seq<Option<Seq<char>>>,
) -> Seq<EffectV> {
    if targets.len() == 0 {
        Seq::empty()
    } else {
        seq![EffectV::Show(Tone::Section, "PLAN: Transaction Impact"@)] + match txn {
            Some(rows) => seq![
                EffectV::Show(Tone::Info, "Transaction impact (remove + unneeded dependencies):"@),
            ] + rows.map_values(|r: (Seq<char>, u64)| EffectV::Show(Tone::Plain, removal_line(r)))
                + seq![
                EffectV::Show(
                    Tone::Info,
                    "Estimated transaction size impact (freed space): "@ + format_bytes_spec(
                        txn_total(rows),
                    ),
                ),
            ],
            None => Seq::new(targets.len(), |i: int| fallback_line(targets[i], sizes[i])),
        }
    }
}

/// Everything `remove --plan` shows and records, given the simulated
/// removal and, when it could not be simulated, the installed size of each
/// target. Nothing is removed.
pub open spec fn remove_plan_spec(
    targets: Seq<Seq<char>>,
    missing: Seq<Seq<char>>,
    txn: Option<Seq<(Seq<char>, u64)>>,
    sizes: Seq<Option<Seq<char>>>,
) -> Seq<EffectV> {
    seq![EffectV::Show(Tone::Section, "PLAN: Decision Analysis"@)] + per_package_spec(
        targets,
        seq![
            show_pkg(Tone::Plain, "  - "@, " -> remove"@),
            show_fixed(Tone::Plain, "    reason: installed package"@),
        ],
    ) + per_package_spec(
        missing,
        seq![
            show_pkg(Tone::Plain, "  - "@, " -> skip"@),
            show_fixed(Tone::Plain, "    reason: not installed"@),
        ],
    ) + impact_section(targets, txn, sizes) + seq![
        EffectV::Show(Tone::Plain, Seq::<char>::empty()),
        EffectV::Show(Tone::Info, "Summary: "@ + remove_counts(targets.len(), missing.len())),
    ] + per_package_spec(
        targets,
        seq![record_pkg("remove"@, "official"@, "planned"@, "plan:installed package"@)],
    ) + per_package_spec(
        missing,
        seq![record_pkg("remove"@, "official"@, "skipped"@, "plan:not installed"@)],
    ) + seq![EffectV::Show(Tone::Success, "Plan completed (no changes applied)"@)]
}

/// The views of optional sizes.
pub open spec fn sizes_view(v: Seq<Option<String>>) -> Seq<Option<Seq<char>>> {
    v.map_values(
        |o: Option<String>|
            match o {
                Some(s) => Some(s@),
                None => None,
            },
    )
}

fn impact_effects(
    targets: &Vec<String>,
    txn: &Option<Vec<TxnRow>>,
    sizes: &Vec<Option<String>>,
) -> (r: Vec<Effect>)
    requires
        txn matches Some(t) ==> txn_total(txn_view(t@)) <= u64::MAX,
        txn is None ==> sizes.len() == targets.len(),
    ensures
        effect_views(r@) == impact_section(views(targets@), opt_txn_view(*txn), sizes_view(sizes@)),
{
    let mut out: Vec<Effect> = Vec::new();
    if targets.len() == 0 {
        assert(effect_views(out@) =~= Seq::<EffectV>::empty());
        return out;
    }
    push_effect(&mut out, show_str(Tone::Section, "PLAN: Transaction Impact"));
    match txn {
        Some(rows) => {
            push_effect(
                &mut out,
                show_str(Tone::Info, "Transaction impact (remove + unneeded dependencies):"),
            );
            let ghost head = effect_views(out@);
            let ghost tv = txn_view(rows@);
            let ghost f = |r: (Seq<char>, u64)| EffectV::Show(Tone::Plain, removal_line(r));
            let mut i: usize = 0;
            while i < rows.len()
                invariant
                    i <= rows.len(),
                    tv == txn_view(rows@),
                    f == (|r: (Seq<char>, u64)| EffectV::Show(Tone::Plain, removal_line(r))),
                    effect_views(out@) == head + tv.take(i as int).map_values(f),
                decreases rows.len() - i,
            {
                let mut l = String::from_str("  - ");
                l.append(rows[i].0.as_str());
                l.append(" (");
                l.append(format_bytes(rows[i].1).as_str());
                l.append(")");
                assert(tv[i as int] == (rows@[i as int].0@, rows@[i as int].1));
                push_effect(&mut out, show(Tone::Plain, l));
                i += 1;
                assert(effect_views(out@) =~= head + tv.take(i as int).map_values(f));
            }
            assert(tv.take(rows.len() as int) =~= tv);
            let total = transaction_total(rows);
            let mut m = String::from_str("Estimated transaction size impact (freed space): ");
            m.append(format_bytes(total).as_str());
            push_effect(&mut out, show(Tone::Info, m));
        },
        None => {
            let ghost tg = views(targets@);
            let ghost sv = sizes_view(sizes@);
            let ghost g = |i: int| fallback_line(tg[i], sv[i]);
            let mut i: usize = 0;
            while i < targets.len()
                invariant
                    i <= targets.len(),
                    sizes.len() == targets.len(),
                    tg == views(targets@),
                    sv == sizes_view(sizes@),
                    g == (|i: int| fallback_line(tg[i], sv[i])),
                    effect_views(out@) == seq![EffectV::Show(Tone::Section, "PLAN: Transaction Impact"@)]
                        + Seq::new(i as nat, g),
                decreases targets.len() - i,
            {
                match &sizes[i] {
                    Some(s) => {
                        let mut m = String::from_str("Estimated freed size for ");
                        m.append(targets[i].as_str());
                        m.append(": ");
                        m.append(s.as_str());
                        push_effect(&mut out, show(Tone::Info, m));
                    },
                    None => {
                        let mut m = String::from_str("Unable to simulate remove dependency tree for ");
                        m.append(targets[i].as_str());
                        push_effect(&mut out, show(Tone::Warn, m));
                    },
                }
                i += 1;
                assert(effect_views(out@) =~= seq![EffectV::Show(Tone::Section, "PLAN: Transaction Impact"@)]
                    + Seq::new(i as nat, g));
            }
        },
    }
    out
}

/// See [`remove_plan_spec`]. `sizes` is only read when `txn` is `None`.
pub fn remove_plan(split: &RemoveSplit, txn: &Option<Vec<TxnRow>>, sizes: &Vec<Option<String>>) -> (r:
    Vec<Effect>)
    requires
        txn matches Some(t) ==> txn_total(txn_view(t@)) <= u64::MAX,
        txn is None ==> sizes.len() == split.targets.len(),
    ensures
        effect_views(r@) == remove_plan_spec(
            views(split.targets@),
            views(split.missing@),
            opt_txn_view(*txn),
            sizes_view(sizes@),
        ),
{
    let mut out: Vec<Effect> = Vec::new();
    push_effect(&mut out, show_str(Tone::Section, "PLAN: Decision Analysis"));
    let s1 = vec![
        step_show_pkg(Tone::Plain, "  - ", " -> remove"),
        step_show_fixed(Tone::Plain, "    reason: installed package"),
    ];
    assert(steps_view(s1@) =~= seq![
        show_pkg(Tone::Plain, "  - "@, " -> remove"@),
        show_fixed(Tone::Plain, "    reason: installed package"@),
    ]);
    steps_over(&split.targets, s1, &mut out);
    let s2 = vec![
        step_show_pkg(Tone::Plain, "  - ", " -> skip"),
        step_show_fixed(Tone::Plain, "    reason: not installed"),
    ];
    assert(steps_view(s2@) =~= seq![
        show_pkg(Tone::Plain, "  - "@, " -> skip"@),
        show_fixed(Tone::Plain, "    reason: not installed"@),
    ]);
    steps_over(&split.missing, s2, &mut out);
    append_effects(&mut out, impact_effects(&split.targets, txn, sizes));
    push_effect(&mut out, show(Tone::Plain, String::new()));
    let mut m = String::from_str("Summary: ");
    m.append(remove_counts_text(split.targets.len(), split.missing.len()).as_str());
    push_effect(&mut out, show(Tone::Info, m));
    let r1 = vec![step_record("remove", "official", "planned", "plan:installed package")];
    assert(steps_view(r1@) =~= seq![
        record_pkg("remove"@, "official"@, "planned"@, "plan:installed package"@),
    ]);
    steps_over(&split.targets, r1, &mut out);
    let r2 = vec![step_record("remove", "official", "skipped", "plan:not installed")];
    assert(steps_view(r2@) =~= seq![
        record_pkg("remove"@, "official"@, "skipped"@, "plan:not installed"@),
    ]);
    steps_over(&split.missing, r2, &mut out);
    push_effect(&mut out, show_str(Tone::Success, "Plan completed (no changes applied)"));
    assert(effect_views(out@) =~= remove_plan_spec(
        views(split.targets@),
        views(split.missing@),
        opt_txn_view(*txn),
        sizes_view(sizes@),
    ));
    out
}

// ---------------------------------------------------------------------------
// Dry run
// ---------------------------------------------------------------------------

/// Everything `remove --dry-run` shows and records: the commands that would
/// run, and nothing removed.
pub open spec fn remove_dry_run_spec(targets: Seq<Seq<char>>, missing: Seq<Seq<char>>) -> Seq<
    EffectV,
> {
    seq![
        EffectV::Show(Tone::Section, "DRY-RUN: Execution Simulation"@),
        EffectV::Show(Tone::Info, "No package changes will be applied"@),
    ] + (if targets.len() > 0 {
        seq![
            EffectV::Show(
                Tone::Info,
                "Would execute: sudo pacman -Rns "@ + join_spec(targets, " "@),
            ),
        ]
    } else {
        Seq::empty()
    }) + per_package_spec(
        missing,
        seq![
            show_pkg(Tone::Warn, ""@, " -> already absent (skip)"@),
            record_pkg("remove"@, "official"@, "skipped"@, "dry-run:not installed"@),
        ],
    ) + per_package_spec(
        targets,
        seq![
            show_pkg2(Tone::Info, ""@, " -> would execute: sudo pacman -Rns "@, ""@),
            record_pkg("remove"@, "official"@, "planned"@, "dry-run:installed package"@),
        ],
    ) + seq![
        EffectV::Show(Tone::Plain, Seq::<char>::empty()),
        EffectV::Show(
            Tone::Info,
            "Execution summary: "@ + remove_counts(targets.len(), missing.len()),
        ),
        EffectV::Show(Tone::Success, "Dry-run completed (no changes applied)"@),
    ]
}

/// See [`remove_dry_run_spec`].
pub fn remove_dry_run(split: &RemoveSplit) -> (r: Vec<Effect>)
    ensures
        effect_views(r@) == remove_dry_run_spec(views(split.targets@), views(split.missing@)),
{
    let mut out: Vec<Effect> = Vec::new();
    push_effect(&mut out, show_str(Tone::Section, "DRY-RUN: Execution Simulation"));
    push_effect(&mut out, show_str(Tone::Info, "No package changes will be applied"));
    if split.targets.len() > 0 {
        push_effect(
            &mut out,
            show(Tone::Info, prefixed_list("Would execute: sudo pacman -Rns ", &split.targets)),
        );
    }
    let s1 = vec![
        step_show_pkg(Tone::Warn, "", " -> already absent (skip)"),
        step_record("remove", "official", "skipped", "dry-run:not installed"),
    ];
    assert(steps_view(s1@) =~= seq![
        show_pkg(Tone::Warn, ""@, " -> already absent (skip)"@),
        record_pkg("remove"@, "official"@, "skipped"@, "dry-run:not installed"@),
    ]);
    steps_over(&split.missing, s1, &mut out);
    let s2 = vec![
        step_show_pkg2(Tone::Info, "", " -> would execute: sudo pacman -Rns ", ""),
        step_record("remove", "official", "planned", "dry-run:installed package"),
    ];
    assert(steps_view(s2@) =~= seq![
        show_pkg2(Tone::Info, ""@, " -> would execute: sudo pacman -Rns "@, ""@),
        record_pkg("remove"@, "official"@, "planned"@, "dry-run:installed package"@),
    ]);
    steps_over(&split.targets, s2, &mut out);
    push_effect(&mut out, show(Tone::Plain, String::new()));
    let mut m = String::from_str("Execution summary: ");
    m.append(remove_counts_text(split.targets.len(), split.missing.len()).as_str());
    push_effect(&mut out, show(Tone::Info, m));
    push_effect(&mut out, show_str(Tone::Success, "Dry-run completed (no changes applied)"));
    assert(effect_views(out@) =~= remove_dry_run_spec(
        views(split.targets@),
        views(split.missing@),
    ));
    out
}

// ---------------------------------------------------------------------------
// Real run
// ---------------------------------------------------------------------------

/// What a real removal shows and records before asking for confirmation;
/// with nothing installed it ends there with `Nothing to remove`.
pub open spec fn remove_outline_spec(targets: Seq<Seq<char>>, missing: Seq<Seq<char>>) -> Seq<
    EffectV,
> {
    let skips = per_package_spec(
        missing,
        seq![record_pkg("remove"@, "official"@, "skipped"@, "not-installed"@)],
    );
    if targets.len() == 0 {
        seq![EffectV::Show(Tone::Section, "Execution Plan"@)] + skips + seq![
            EffectV::Show(Tone::Info, "Summary: remove=0 skip="@ + decimal(missing.len())),
            EffectV::Show(Tone::Warn, "Nothing to remove"@),
        ]
    } else {
        seq![
            EffectV::Show(Tone::Section, "Execution Plan"@),
            EffectV::Show(Tone::Info, "Targets: "@ + join_spec(targets, " "@)),
            EffectV::Show(Tone::Info, "Summary: "@ + remove_counts(targets.len(), missing.len())),
        ] + skips
    }
}

/// See [`remove_outline_spec`]; the flag tells whether there is anything to
/// remove (if not, the removal ends there, successfully).
pub fn remove_outline(split: &RemoveSplit) -> (r: (Vec<Effect>, bool))
    ensures
        effect_views(r.0@) == remove_outline_spec(views(split.targets@), views(split.missing@)),
        r.1 == (split.targets.len() > 0),
{
    let mut out: Vec<Effect> = Vec::new();
    let r1 = vec![step_record("remove", "official", "skipped", "not-installed")];
    assert(steps_view(r1@) =~= seq![
        record_pkg("remove"@, "official"@, "skipped"@, "not-installed"@),
    ]);
    if split.targets.len() == 0 {
        push_effect(&mut out, show_str(Tone::Section, "Execution Plan"));
        steps_over(&split.missing, r1, &mut out);
        let mut m = String::from_str("Summary: remove=0 skip=");
        m.append(decimal_string(split.missing.len() as u128).as_str());
        push_effect(&mut out, show(Tone::Info, m));
        push_effect(&mut out, show_str(Tone::Warn, "Nothing to remove"));
        assert(effect_views(out@) =~= remove_outline_spec(
            views(split.targets@),
            views(split.missing@),
        ));
        (out, false)
    } else {
        push_effect(&mut out, show_str(Tone::Section, "Execution Plan"));
        push_effect(&mut out, show(Tone::Info, prefixed_list("Targets: ", &split.targets)));
        let mut m = String::from_str("Summary: ");
        m.append(remove_counts_text(split.targets.len(), split.missing.len()).as_str());
        push_effect(&mut out, show(Tone::Info, m));
        steps_over(&split.missing, r1, &mut out);
        assert(effect_views(out@) =~= remove_outline_spec(
            views(split.targets@),
            views(split.missing@),
        ));
        (out, true)
    }
}

/// The question asked before removing.
pub fn remove_prompt() -> (s: &'static str)
    ensures
        s@ == "Are you sure you want to remove these packages and unneeded dependencies?"@,
{
    "Are you sure you want to remove these packages and unneeded dependencies?"
}

/// What happens when the user declines the removal.
pub open spec fn remove_cancel_spec(pkgs: Seq<Seq<char>>, targets: Seq<Seq<char>>) -> Seq<EffectV> {
    per_package_spec(
        targets,
        seq![record_pkg("remove"@, "official"@, "cancelled"@, "user-cancel"@)],
    ) + seq![
        EffectV::Log("Remove cancelled by user for packages: "@ + join_spec(pkgs, " "@)),
        EffectV::Show(Tone::Info, "Operation cancelled"@),
    ]
}

/// See [`remove_cancel_spec`].
pub fn remove_cancelled(pkgs: &Vec<String>, split: &RemoveSplit) -> (r: Vec<Effect>)
    ensures
        effect_views(r@) == remove_cancel_spec(views(pkgs@), views(split.targets@)),
{
    let mut out: Vec<Effect> = Vec::new();
    let r1 = vec![step_record("remove", "official", "cancelled", "user-cancel")];
    assert(steps_view(r1@) =~= seq![
        record_pkg("remove"@, "official"@, "cancelled"@, "user-cancel"@),
    ]);
    steps_over(&split.targets, r1, &mut out);
    push_effect(&mut out, Effect::Log(prefixed_list("Remove cancelled by user for packages: ", pkgs)));
    push_effect(&mut out, show_str(Tone::Info, "Operation cancelled"));
    out
}

/// What is shown and logged right before pacman removes the targets.
pub open spec fn remove_start_spec(targets: Seq<Seq<char>>) -> Seq<EffectV> {
    seq![
        EffectV::Show(Tone::Info, "Removing: "@ + join_spec(targets, " "@)),
        EffectV::Log("Remove requested for packages: "@ + join_spec(targets, " "@)),
        EffectV::Show(Tone::Plain, Seq::<char>::empty()),
    ]
}

/// See [`remove_start_spec`].
pub fn remove_start(split: &RemoveSplit) -> (r: Vec<Effect>)
    ensures
        effect_views(r@) == remove_start_spec(views(split.targets@)),
{
    let mut out: Vec<Effect> = Vec::new();
    push_effect(&mut out, show(Tone::Info, prefixed_list("Removing: ", &split.targets)));
    push_effect(&mut out, Effect::Log(prefixed_list("Remove requested for packages: ", &split.targets)));
    push_effect(&mut out, show(Tone::Plain, String::new()));
    assert(effect_views(out@) =~= remove_start_spec(views(split.targets@)));
    out
}

/// What follows the pacman run: every target recorded as failed and the
/// removal failing, or every target recorded as removed.
pub open spec fn remove_result_spec(targets: Seq<Seq<char>>, ok: bool) -> Seq<EffectV> {
    if ok {
        per_package_spec(targets, seq![record_pkg("remove"@, "official"@, "success"@, ""@)]) + seq![
            EffectV::Log("Remove success"@),
            EffectV::Show(Tone::Plain, Seq::<char>::empty()),
            EffectV::Show(Tone::Success, "Package(s) removed successfully"@),
        ]
    } else {
        per_package_spec(targets, seq![record_pkg("remove"@, "official"@, "failed"@, "pacman-remove"@)])
            + seq![EffectV::Log("Remove failed for packages: "@ + join_spec(targets, " "@))]
    }
}

/// See [`remove_result_spec`]; the error is `Remove failed`.
pub fn remove_result(split: &RemoveSplit, ok: bool) -> (r: (Vec<Effect>, Result<(), String>))
    ensures
        effect_views(r.0@) == remove_result_spec(views(split.targets@), ok),
        r.1.is_ok() == ok,
        r.1 matches Err(m) ==> m@ == "Remove failed"@,
{
    let mut out: Vec<Effect> = Vec::new();
    if ok {
        let r1 = vec![step_record("remove", "official", "success", "")];
        assert(steps_view(r1@) =~= seq![record_pkg("remove"@, "official"@, "success"@, ""@)]);
        steps_over(&split.targets, r1, &mut out);
        push_effect(&mut out, Effect::Log(String::from_str("Remove success")));
        push_effect(&mut out, show(Tone::Plain, String::new()));
        push_effect(&mut out, show_str(Tone::Success, "Package(s) removed successfully"));
        assert(effect_views(out@) =~= remove_result_spec(views(split.targets@), ok));
        (out, Ok(()))
    } else {
        let r1 = vec![step_record("remove", "official", "failed", "pacman-remove")];
        assert(steps_view(r1@) =~= seq![record_pkg("remove"@, "official"@, "failed"@, "pacman-remove"@)]);
        steps_over(&split.targets, r1, &mut out);
        push_effect(&mut out, Effect::Log(prefixed_list("Remove failed for packages: ", &split.targets)));
        assert(effect_views(out@) =~= remove_result_spec(views(split.targets@), ok));
        (out, Err(String::from_str("Remove failed")))
    }
}

} // verus!
