//! Upgrading the system: the preview of plan and dry-run modes and the
//! outcome of a real upgrade.

use vstd::prelude::*;
use crate::text::{decimal, decimal_string, views};
use crate::pacman::{update_entries, update_entries_spec, updates_view};
use crate::report::{effect_views, push_effect, rec, record, show, show_str, Effect, EffectV, Tone};

verus! {

/// What starts an upgrade; `foreign` is the number of installed packages
/// that come from outside the sync databases.
pub open spec fn update_start_spec(foreign: nat) -> Seq<EffectV> {
    seq![
        EffectV::Show(Tone::Info, "Updating system"@),
        EffectV::Log("System update requested"@),
        EffectV::Show(Tone::Plain, Seq::<char>::empty()),
    ] + if foreign > 0 {
        seq![
            EffectV::Show(
                Tone::Info,
                "Note: You have "@ + decimal(foreign)
                    + " AUR/local package(s) installed. These must be updated separately."@,
            ),
        ]
    } else {
        Seq::empty()
    }
}

/// See [`update_start_spec`].
pub fn update_start(foreign: usize) -> (r: Vec<Effect>)
    ensures
        effect_views(r@) == update_start_spec(foreign as nat),
{
    let mut out: Vec<Effect> = Vec::new();
    push_effect(&mut out, show_str(Tone::Info, "Updating system"));
    push_effect(&mut out, Effect::Log(String::from_str("System update requested")));
    push_effect(&mut out, show(Tone::Plain, String::new()));
    if foreign > 0 {
        let mut m = String::from_str("Note: You have ");
        m.append(decimal_string(foreign as u128).as_str());
        m.append(" AUR/local package(s) installed. These must be updated separately.");
        push_effect(&mut out, show(Tone::Info, m));
    }
    assert(effect_views(out@) =~= update_start_spec(foreign as nat));
    out
}

/// What opens the preview of plan mode (`plan`) or dry-run mode.
pub open spec fn preview_open_spec(plan: bool) -> Seq<EffectV> {
    seq![
        EffectV::Show(
            Tone::Section,
            if plan {
                "PLAN: Decision Analysis"@
            } else {
                "DRY-RUN: Execution Simulation"@
            },
        ),
        EffectV::Show(Tone::Info, "Checking available updates"@),
    ]
}

/// See [`preview_open_spec`].
pub fn preview_open(plan: bool) -> (r: Vec<Effect>)
    ensures
        effect_views(r@) == preview_open_spec(plan),
{
    let mut out: Vec<Effect> = Vec::new();
    if plan {
        push_effect(&mut out, show_str(Tone::Section, "PLAN: Decision Analysis"));
    } else {
        push_effect(&mut out, show_str(Tone::Section, "DRY-RUN: Execution Simulation"));
    }
    push_effect(&mut out, show_str(Tone::Info, "Checking available updates"));
    assert(effect_views(out@) =~= preview_open_spec(plan));
    out
}

/// How pending updates are listed: with `checkupdates` when it is
/// installed, else (after a warning) with `pacman -Qu`.
pub fn pending_query(has_checkupdates: bool) -> (r: (String, Vec<String>, Vec<Effect>))
    ensures
        has_checkupdates ==> r.0@ == "checkupdates"@ && r.1@.len() == 0 && r.2@.len() == 0,
        !has_checkupdates ==> r.0@ == "pacman"@ && views(r.1@) == seq!["-Qu"@] && effect_views(
            r.2@,
        ) == seq![
            EffectV::Show(
                Tone::Warn,
                "'checkupdates' not found (install pacman-contrib). Falling back to local db check (pacman -Qu)."@,
            ),
        ],
{
    if has_checkupdates {
        (String::from_str("checkupdates"), Vec::new(), Vec::new())
    } else {
        let mut args: Vec<String> = Vec::new();
        crate::report::push_string(&mut args, String::from_str("-Qu"));
        let mut w: Vec<Effect> = Vec::new();
        push_effect(
            &mut w,
            show_str(
                Tone::Warn,
                "'checkupdates' not found (install pacman-contrib). Falling back to local db check (pacman -Qu).",
            ),
        );
        assert(views(args@) =~= seq!["-Qu"@]);
        (String::from_str("pacman"), args, w)
    }
}

/// The upgrade command that would run: `pacman -Syu`, through `sudo` when
/// the user is not root, with `--noconfirm` when asked.
pub open spec fn upgrade_command(yes: bool, nonroot: bool) -> Seq<char> {
    (if nonroot {
        "sudo "@
    } else {
        Seq::<char>::empty()
    }) + "pacman -Syu"@ + if yes {
        " --noconfirm"@
    } else {
        Seq::<char>::empty()
    }
}

/// The two lines that explain one pending update in plan mode.
pub open spec fn update_entry_lines(e: (Seq<char>, Seq<char>, Seq<char>)) -> Seq<EffectV> {
    seq![
        EffectV::Show(Tone::Plain, "  - "@ + e.0 + " -> update"@),
        EffectV::Show(Tone::Plain, "    reason: update available ("@ + e.1 + " -> "@ + e.2 + ")"@),
    ]
}

/// Everything the preview shows and records, given the listed updates
/// (`output`, with trailing whitespace removed) and their number. Nothing
/// is upgraded.
pub open spec fn update_preview_spec(
    plan: bool,
    yes: bool,
    nonroot: bool,
    output: Seq<char>,
    count: nat,
) -> Seq<EffectV> {
    (if output.len() > 0 {
        (if plan {
            update_entries_spec(output).map_values(
                |e: (Seq<char>, Seq<char>, Seq<char>)| update_entry_lines(e),
            ).flatten_alt()
        } else {
            seq![EffectV::Show(Tone::Plain, output)]
        }) + seq![EffectV::Show(Tone::Info, "Pending updates: "@ + decimal(count))]
    } else if plan {
        seq![EffectV::Show(Tone::Info, "Decision: no update required"@)]
    } else {
        seq![EffectV::Show(Tone::Info, "No pending updates detected"@)]
    }) + seq![
        EffectV::Show(Tone::Info, "Would execute: "@ + upgrade_command(yes, nonroot)),
        rec(
            "update"@,
            "system"@,
            "official"@,
            "planned"@,
            (if plan {
                "plan"@
            } else {
                "dry-run"@
            }) + " count="@ + decimal(count),
        ),
        EffectV::Show(
            Tone::Success,
            if plan {
                "Plan completed (no changes applied)"@
            } else {
                "Dry-run completed (no changes applied)"@
            },
        ),
    ]
}

/// See [`update_preview_spec`].
pub fn update_preview(plan: bool, yes: bool, nonroot: bool, output: &str, count: usize) -> (r: Vec<
    Effect,
>)
    ensures
        effect_views(r@) == update_preview_spec(plan, yes, nonroot, output@, count as nat),
{
    let mut out: Vec<Effect> = Vec::new();
    if output.unicode_len() > 0 {
        if plan {
            let es = update_entries(output);
            let ghost ev = updates_view(es@);
            let ghost f = |e: (Seq<char>, Seq<char>, Seq<char>)| update_entry_lines(e);
            let mut i: usize = 0;
            assert(ev.take(0).map_values(f) =~= Seq::<Seq<EffectV>>::empty());
            while i < es.len()
                invariant
                    i <= es.len(),
                    ev == updates_view(es@),
                    ev == update_entries_spec(output@),
                    f == (|e: (Seq<char>, Seq<char>, Seq<char>)| update_entry_lines(e)),
                    effect_views(out@) == ev.take(i as int).map_values(f).flatten_alt(),
                decreases es.len() - i,
            {
                assert(ev.take(i + 1).map_values(f).drop_last() =~= ev.take(i as int).map_values(f));
                assert(ev[i as int] == (es@[i as int].0@, es@[i as int].1@, es@[i as int].2@));
                let ghost before = effect_views(out@);
                let mut a = String::from_str("  - ");
                a.append(es[i].0.as_str());
                a.append(" -> update");
                push_effect(&mut out, show(Tone::Plain, a));
                let mut b = String::from_str("    reason: update available (");
                b.append(es[i].1.as_str());
                b.append(" -> ");
                b.append(es[i].2.as_str());
                b.append(")");
                push_effect(&mut out, show(Tone::Plain, b));
                assert(effect_views(out@) =~= before + update_entry_lines(ev[i as int]));
                i += 1;
            }
            assert(ev.take(es.len() as int) =~= ev);
        } else {
            push_effect(&mut out, show_str(Tone::Plain, output));
        }
        let mut m = String::from_str("Pending updates: ");
        m.append(decimal_string(count as u128).as_str());
        push_effect(&mut out, show(Tone::Info, m));
    } else if plan {
        push_effect(&mut out, show_str(Tone::Info, "Decision: no update required"));
    } else {
        push_effect(&mut out, show_str(Tone::Info, "No pending updates detected"));
    }
    let mut cmd = String::new();
    if nonroot {
        cmd.append("sudo ");
    }
    cmd.append("pacman -Syu");
    if yes {
        cmd.append(" --noconfirm");
    }
    let mut w = String::from_str("Would execute: ");
    w.append(cmd.as_str());
    proof {
        assert(cmd@ =~= upgrade_command(yes, nonroot));
    }
    push_effect(&mut out, show(Tone::Info, w));
    let mut detail = String::from_str(if plan { "plan" } else { "dry-run" });
    detail.append(" count=");
    detail.append(decimal_string(count as u128).as_str());
    push_effect(&mut out, record("update", "system", "official", "planned", detail.as_str()));
    if plan {
        push_effect(&mut out, show_str(Tone::Success, "Plan completed (no changes applied)"));
    } else {
        push_effect(&mut out, show_str(Tone::Success, "Dry-run completed (no changes applied)"));
    }
    assert(effect_views(out@) =~= update_preview_spec(plan, yes, nonroot, output@, count as nat));
    out
}

/// What follows the upgrade run: recorded and logged as failed (and the
/// upgrade fails with `System update failed`), or as a success.
pub open spec fn update_result_spec(ok: bool) -> Seq<EffectV> {
    if ok {
        seq![
            rec("update"@, "system"@, "official"@, "success"@, ""@),
            EffectV::Log("System update success"@),
            EffectV::Show(Tone::Success, "System updated successfully"@),
        ]
    } else {
        seq![
            rec("update"@, "system"@, "official"@, "failed"@, "pacman-syu"@),
            EffectV::Log("System update failed"@),
        ]
    }
}

/// See [`update_result_spec`].
pub fn update_result(ok: bool) -> (r: (Vec<Effect>, Result<(), String>))
    ensures
        effect_views(r.0@) == update_result_spec(ok),
        r.1.is_ok() == ok,
        r.1 matches Err(m) ==> m@ == "System update failed"@,
{
    let mut out: Vec<Effect> = Vec::new();
    if ok {
        push_effect(&mut out, record("update", "system", "official", "success", ""));
        push_effect(&mut out, Effect::Log(String::from_str("System update success")));
        push_effect(&mut out, show_str(Tone::Success, "System updated successfully"));
        assert(effect_views(out@) =~= update_result_spec(ok));
        (out, Ok(()))
    } else {
        push_effect(&mut out, record("update", "system", "official", "failed", "pacman-syu"));
        push_effect(&mut out, Effect::Log(String::from_str("System update failed")));
        assert(effect_views(out@) =~= update_result_spec(ok));
        (out, Err(String::from_str("System update failed")))
    }
}

} // verus!
