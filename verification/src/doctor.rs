//! The health check: which core tools are present, whether pacman is
//! locked, whether the cache and state directories are writable, and whether
//! the Arch Linux hosts resolve.

use vstd::prelude::*;
use crate::text::{decimal, decimal_string, views};
use crate::report::{effect_views, push_effect, show, show_str, Effect, EffectV, Tone};

verus! {

/// The tools a working setup needs, in the order they are checked.
pub open spec fn core_tools_spec() -> Seq<Seq<char>> {
    seq!["pacman"@, "sudo"@, "git"@, "makepkg"@]
}

/// The hosts whose names must resolve, in the order they are checked.
pub open spec fn hosts_spec() -> Seq<Seq<char>> {
    seq!["archlinux.org"@, "aur.archlinux.org"@]
}

/// See [`core_tools_spec`].
pub fn core_tools() -> (r: Vec<String>)
    ensures
        views(r@) == core_tools_spec(),
{
    let mut v: Vec<String> = Vec::new();
    crate::report::push_string(&mut v, String::from_str("pacman"));
    crate::report::push_string(&mut v, String::from_str("sudo"));
    crate::report::push_string(&mut v, String::from_str("git"));
    crate::report::push_string(&mut v, String::from_str("makepkg"));
    assert(views(v@) =~= core_tools_spec());
    v
}

/// See [`hosts_spec`].
pub fn hosts() -> (r: Vec<String>)
    ensures
        views(r@) == hosts_spec(),
{
    let mut v: Vec<String> = Vec::new();
    crate::report::push_string(&mut v, String::from_str("archlinux.org"));
    crate::report::push_string(&mut v, String::from_str("aur.archlinux.org"));
    assert(views(v@) =~= hosts_spec());
    v
}

/// The number of `false` among `v`.
pub open spec fn count_false(v: Seq<bool>) -> nat
    decreases v.len(),
{
    if v.len() == 0 {
        0
    } else {
        count_false(v.drop_last()) + if v.last() {
            0nat
        } else {
            1nat
        }
    }
}

/// No `false` among `v` exactly when the count is zero.
pub proof fn lemma_count_false_zero(v: Seq<bool>)
    ensures
        (count_false(v) == 0) <==> (forall|i: int| 0 <= i < v.len() ==> #[trigger] v[i]),
        count_false(v) <= v.len(),
    decreases v.len(),
{
    if v.len() > 0 {
        lemma_count_false_zero(v.drop_last());
        if count_false(v) == 0 {
            assert forall|i: int| 0 <= i < v.len() implies #[trigger] v[i] by {
                if i < v.len() - 1 {
                    assert(v[i] == v.drop_last()[i]);
                }
            }
        }
        if forall|i: int| 0 <= i < v.len() ==> #[trigger] v[i] {
            assert forall|i: int| 0 <= i < v.len() - 1 implies #[trigger] v.drop_last()[i] by {
                assert(v[i] == v.drop_last()[i]);
            }
            assert(v[v.len() - 1]);
        }
    }
}

/// The two lines about one tool.
pub open spec fn tool_effects(name: Seq<char>, found: bool) -> Seq<EffectV> {
    if found {
        seq![
            EffectV::Show(Tone::Success, name + " OK"@),
            EffectV::Log("Doctor: "@ + name + " OK"@),
        ]
    } else {
        seq![
            EffectV::Show(Tone::Warn, name + " missing"@),
            EffectV::Log("Doctor: "@ + name + " missing"@),
        ]
    }
}

/// The line about one host.
pub open spec fn host_effect(host: Seq<char>, ok: bool) -> EffectV {
    if ok {
        EffectV::Show(Tone::Success, "DNS reachable: "@ + host)
    } else {
        EffectV::Show(Tone::Warn, "DNS unresolved: "@ + host)
    }
}

/// The number of warnings: the lock, each unwritable directory, each
/// unresolved host.
pub open spec fn warning_count(lock: bool, cache_ok: bool, state_ok: bool, dns: Seq<bool>) -> nat {
    (if lock {
        1nat
    } else {
        0nat
    }) + (if cache_ok {
        0nat
    } else {
        1nat
    }) + (if state_ok {
        0nat
    } else {
        1nat
    }) + count_false(dns)
}

/// The closing line of the health check.
pub open spec fn verdict_effect(missing: nat, warnings: nat) -> EffectV {
    if missing == 0 {
        if warnings == 0 {
            EffectV::Show(Tone::Success, "Doctor check completed (healthy)"@)
        } else {
            EffectV::Show(Tone::Warn, "Doctor completed with "@ + decimal(warnings) + " warning(s)"@)
        }
    } else {
        EffectV::Show(
            Tone::Warn,
            "Doctor found "@ + decimal(missing) + " missing dependency(ies) and "@ + decimal(
                warnings,
            ) + " warning(s)"@,
        )
    }
}

/// Everything the health check shows and logs, given what was found: `found[i]`
/// for tool `i`, whether the pacman lock exists, whether the cache and state
/// directories are writable, and `dns[i]` for host `i`.
pub open spec fn doctor_spec(
    found: Seq<bool>,
    lock: bool,
    cache_dir: Seq<char>,
    cache_ok: bool,
    state_dir: Seq<char>,
    state_ok: bool,
    dns: Seq<bool>,
) -> Seq<EffectV> {
    seq![
        EffectV::Log("Doctor check requested"@),
        EffectV::Show(Tone::Section, "Core tools check"@),
    ] + Seq::new(4, |i: int| tool_effects(core_tools_spec()[i], found[i])).flatten_alt() + seq![
        EffectV::Show(Tone::Plain, Seq::<char>::empty()),
        EffectV::Show(Tone::Section, "Runtime checks"@),
        if lock {
            EffectV::Show(Tone::Warn, "pacman database lock exists (/var/lib/pacman/db.lck)"@)
        } else {
            EffectV::Show(Tone::Success, "pacman database lock not present"@)
        },
        if cache_ok {
            EffectV::Show(Tone::Success, "Cache directory writable: "@ + cache_dir)
        } else {
            EffectV::Show(Tone::Warn, "Cache directory not writable: "@ + cache_dir)
        },
        if state_ok {
            EffectV::Show(Tone::Success, "State directory writable: "@ + state_dir)
        } else {
            EffectV::Show(Tone::Warn, "State directory not writable: "@ + state_dir)
        },
        EffectV::Show(Tone::Plain, Seq::<char>::empty()),
        EffectV::Show(Tone::Section, "Connectivity checks"@),
        host_effect(hosts_spec()[0], dns[0]),
        host_effect(hosts_spec()[1], dns[1]),
        EffectV::Show(Tone::Plain, Seq::<char>::empty()),
        verdict_effect(count_false(found), warning_count(lock, cache_ok, state_ok, dns)),
    ]
}

fn tool_lines(found: &Vec<bool>) -> (r: (Vec<Effect>, u64))
    requires
        found.len() == 4,
    ensures
        effect_views(r.0@) == Seq::new(4, |i: int| tool_effects(core_tools_spec()[i], found@[i])).flatten_alt(),
        r.1 == count_false(found@),
        r.1 <= 4,
{
    let tools = core_tools();
    assert(tools.len() == views(tools@).len());
    let mut out: Vec<Effect> = Vec::new();
    let ghost f = |i: int| tool_effects(core_tools_spec()[i], found@[i]);
    let mut missing: u64 = 0;
    let mut i: usize = 0;
    assert(Seq::new(0, f).flatten_alt() =~= Seq::<EffectV>::empty());
    assert(found@.take(0) =~= Seq::<bool>::empty());
    while i < 4
        invariant
            i <= 4,
            found.len() == 4,
            tools.len() == 4,
            views(tools@) == core_tools_spec(),
            f == (|i: int| tool_effects(core_tools_spec()[i], found@[i])),
            effect_views(out@) == Seq::new(i as nat, f).flatten_alt(),
            missing == count_false(found@.take(i as int)),
            missing <= i,
        decreases 4 - i,
    {
        assert(Seq::new((i + 1) as nat, f).drop_last() =~= Seq::new(i as nat, f));
        assert(found@.take(i + 1).drop_last() =~= found@.take(i as int));
        assert(tools@[i as int]@ == core_tools_spec()[i as int]);
        let ghost before = effect_views(out@);
        let name = tools[i].as_str();
        if found[i] {
            let mut a = String::from_str(name);
            a.append(" OK");
            push_effect(&mut out, show(Tone::Success, a));
            let mut b = String::from_str("Doctor: ");
            b.append(name);
            b.append(" OK");
            push_effect(&mut out, Effect::Log(b));
        } else {
            let mut a = String::from_str(name);
            a.append(" missing");
            push_effect(&mut out, show(Tone::Warn, a));
            let mut b = String::from_str("Doctor: ");
            b.append(name);
            b.append(" missing");
            push_effect(&mut out, Effect::Log(b));
            missing = missing + 1;
        }
        assert(effect_views(out@) =~= before + f(i as int));
        i += 1;
    }
    assert(found@.take(4) =~= found@);
    (out, missing)
}

fn host_lines(dns: &Vec<bool>) -> (r: (Vec<Effect>, u64))
    requires
        dns.len() == 2,
    ensures
        effect_views(r.0@) == seq![host_effect(hosts_spec()[0], dns@[0]), host_effect(hosts_spec()[1], dns@[1])],
        r.1 == count_false(dns@),
        r.1 <= 2,
{
    let hs = hosts();
    assert(hs.len() == views(hs@).len());
    let mut out: Vec<Effect> = Vec::new();
    let mut bad: u64 = 0;
    let mut j: usize = 0;
    assert(dns@.take(0) =~= Seq::<bool>::empty());
    while j < 2
        invariant
            j <= 2,
            dns.len() == 2,
            hs.len() == 2,
            views(hs@) == hosts_spec(),
            effect_views(out@) == Seq::new(j as nat, |k: int| host_effect(hosts_spec()[k], dns@[k])),
            bad == count_false(dns@.take(j as int)),
            bad <= j,
        decreases 2 - j,
    {
        assert(dns@.take(j + 1).drop_last() =~= dns@.take(j as int));
        assert(hs@[j as int]@ == hosts_spec()[j as int]);
        if dns[j] {
            let mut m = String::from_str("DNS reachable: ");
            m.append(hs[j].as_str());
            push_effect(&mut out, show(Tone::Success, m));
        } else {
            let mut m = String::from_str("DNS unresolved: ");
            m.append(hs[j].as_str());
            push_effect(&mut out, show(Tone::Warn, m));
            bad = bad + 1;
        }
        j += 1;
        assert(effect_views(out@) =~= Seq::new(j as nat, |k: int| host_effect(hosts_spec()[k], dns@[k])));
    }
    assert(dns@.take(2) =~= dns@);
    (out, bad)
}

fn runtime_lines(lock: bool, cache_dir: &str, cache_ok: bool, state_dir: &str, state_ok: bool) -> (r: (Vec<Effect>, u64))
    ensures
        effect_views(r.0@) == seq![
            if lock {
                EffectV::Show(Tone::Warn, "pacman database lock exists (/var/lib/pacman/db.lck)"@)
            } else {
                EffectV::Show(Tone::Success, "pacman database lock not present"@)
            },
            if cache_ok {
                EffectV::Show(Tone::Success, "Cache directory writable: "@ + cache_dir@)
            } else {
                EffectV::Show(Tone::Warn, "Cache directory not writable: "@ + cache_dir@)
            },
            if state_ok {
                EffectV::Show(Tone::Success, "State directory writable: "@ + state_dir@)
            } else {
                EffectV::Show(Tone::Warn, "State directory not writable: "@ + state_dir@)
            },
        ],
        r.1 == warning_count(lock, cache_ok, state_ok, Seq::empty()),
{
    let mut out: Vec<Effect> = Vec::new();
    let mut w: u64 = 0;
    if lock {
        push_effect(&mut out, show_str(Tone::Warn, "pacman database lock exists (/var/lib/pacman/db.lck)"));
        w = w + 1;
    } else {
        push_effect(&mut out, show_str(Tone::Success, "pacman database lock not present"));
    }
    if cache_ok {
        let mut m = String::from_str("Cache directory writable: ");
        m.append(cache_dir);
        push_effect(&mut out, show(Tone::Success, m));
    } else {
        let mut m = String::from_str("Cache directory not writable: ");
        m.append(cache_dir);
        push_effect(&mut out, show(Tone::Warn, m));
        w = w + 1;
    }
    if state_ok {
        let mut m = String::from_str("State directory writable: ");
        m.append(state_dir);
        push_effect(&mut out, show(Tone::Success, m));
    } else {
        let mut m = String::from_str("State directory not writable: ");
        m.append(state_dir);
        push_effect(&mut out, show(Tone::Warn, m));
        w = w + 1;
    }
    assert(count_false(Seq::<bool>::empty()) == 0);
    assert(effect_views(out@) =~= seq![
        if lock {
            EffectV::Show(Tone::Warn, "pacman database lock exists (/var/lib/pacman/db.lck)"@)
        } else {
            EffectV::Show(Tone::Success, "pacman database lock not present"@)
        },
        if cache_ok {
            EffectV::Show(Tone::Success, "Cache directory writable: "@ + cache_dir@)
        } else {
            EffectV::Show(Tone::Warn, "Cache directory not writable: "@ + cache_dir@)
        },
        if state_ok {
            EffectV::Show(Tone::Success, "State directory writable: "@ + state_dir@)
        } else {
            EffectV::Show(Tone::Warn, "State directory not writable: "@ + state_dir@)
        },
    ]);
    (out, w)
}

fn verdict(missing: u64, warnings: u64) -> (r: (Effect, Result<(), String>))
    ensures
        r.0@ == verdict_effect(missing as nat, warnings as nat),
        r.1.is_ok() == (missing == 0),
        r.1 matches Err(m) ==> m@ == "Doctor found "@ + decimal(missing as nat) + " missing dependencies"@,
{
    if missing == 0 {
        if warnings == 0 {
            (show_str(Tone::Success, "Doctor check completed (healthy)"), Ok(()))
        } else {
            let mut m = String::from_str("Doctor completed with ");
            m.append(decimal_string(warnings as u128).as_str());
            m.append(" warning(s)");
            (show(Tone::Warn, m), Ok(()))
        }
    } else {
        let mut m = String::from_str("Doctor found ");
        m.append(decimal_string(missing as u128).as_str());
        m.append(" missing dependency(ies) and ");
        m.append(decimal_string(warnings as u128).as_str());
        m.append(" warning(s)");
        let mut e = String::from_str("Doctor found ");
        e.append(decimal_string(missing as u128).as_str());
        e.append(" missing dependencies");
        (show(Tone::Warn, m), Err(e))
    }
}

/// One for each `false` in the first `n` entries of `v`, counted one by one.
pub open spec fn misses(v: Seq<bool>, n: int) -> nat
    decreases n,
{
    if n <= 0 {
        0
    } else {
        misses(v, n - 1) + if v[n - 1] {
            0nat
        } else {
            1nat
        }
    }
}

/// The health check ends on its verdict. With every core tool present it
/// is `Doctor check completed (healthy)` exactly when there is no warning
/// (no pacman lock, both directories writable, both hosts resolved), and
/// otherwise `Doctor completed with <n> warning(s)` with `n` the number of
/// those problems; with a tool missing it is `Doctor found <m> missing
/// dependency(ies) and <n> warning(s)`.
pub proof fn law_doctor_verdict(
    found: Seq<bool>,
    lock: bool,
    cache_dir: Seq<char>,
    cache_ok: bool,
    state_dir: Seq<char>,
    state_ok: bool,
    dns: Seq<bool>,
)
    requires
        found.len() == 4,
        dns.len() == 2,
    ensures
        ({
            let out = doctor_spec(found, lock, cache_dir, cache_ok, state_dir, state_ok, dns);
            let n: nat = (if lock { 1nat } else { 0nat }) + (if cache_ok { 0nat } else { 1nat }) + (
            if state_ok { 0nat } else { 1nat }) + misses(dns, 2);
            let m = misses(found, 4);
            &&& m == 0 ==> (out.last() == EffectV::Show(
                Tone::Success,
                "Doctor check completed (healthy)"@,
            ) <==> n == 0)
            &&& (m == 0 && n > 0) ==> out.last() == EffectV::Show(
                Tone::Warn,
                "Doctor completed with "@ + decimal(n) + " warning(s)"@,
            )
            &&& m > 0 ==> out.last() == EffectV::Show(
                Tone::Warn,
                "Doctor found "@ + decimal(m) + " missing dependency(ies) and "@ + decimal(n)
                    + " warning(s)"@,
            )
            &&& m == 0 <==> (forall|i: int| 0 <= i < 4 ==> #[trigger] found[i])
        }),
{
    reveal_with_fuel(misses, 5);
    reveal_with_fuel(count_false, 5);
    assert(found.drop_last().drop_last().drop_last().drop_last() =~= Seq::<bool>::empty());
    assert(dns.drop_last().drop_last() =~= Seq::<bool>::empty());
    assert(count_false(found) == misses(found, 4)) by {
        assert(found.drop_last().drop_last().drop_last().last() == found[0]);
        assert(found.drop_last().drop_last().last() == found[1]);
        assert(found.drop_last().last() == found[2]);
    }
    assert(count_false(dns) == misses(dns, 2)) by {
        assert(dns.drop_last().last() == dns[0]);
    }
}

/// Runs the decisions of the health check. It succeeds exactly when every
/// core tool is present (warnings do not fail it); otherwise the error is
/// `Doctor found <n> missing dependencies`.
pub fn doctor_report(
    found: &Vec<bool>,
    lock: bool,
    cache_dir: &str,
    cache_ok: bool,
    state_dir: &str,
    state_ok: bool,
    dns: &Vec<bool>,
) -> (r: (Vec<Effect>, Result<(), String>))
    requires
        found.len() == 4,
        dns.len() == 2,
    ensures
        effect_views(r.0@) == doctor_spec(found@, lock, cache_dir@, cache_ok, state_dir@, state_ok, dns@),
        r.1.is_ok() <==> (forall|i: int| 0 <= i < 4 ==> #[trigger] found@[i]),
        r.1 matches Err(m) ==> m@ == "Doctor found "@ + decimal(count_false(found@))
            + " missing dependencies"@,
{
    let mut out: Vec<Effect> = Vec::new();
    push_effect(&mut out, Effect::Log(String::from_str("Doctor check requested")));
    push_effect(&mut out, show_str(Tone::Section, "Core tools check"));
    let (tl, missing) = tool_lines(found);
    crate::report::append_effects(&mut out, tl);
    push_effect(&mut out, show(Tone::Plain, String::new()));
    push_effect(&mut out, show_str(Tone::Section, "Runtime checks"));
    let (rl, w1) = runtime_lines(lock, cache_dir, cache_ok, state_dir, state_ok);
    crate::report::append_effects(&mut out, rl);
    push_effect(&mut out, show(Tone::Plain, String::new()));
    push_effect(&mut out, show_str(Tone::Section, "Connectivity checks"));
    let (hl, w2) = host_lines(dns);
    crate::report::append_effects(&mut out, hl);
    push_effect(&mut out, show(Tone::Plain, String::new()));
    let (v, result) = verdict(missing, w1 + w2);
    push_effect(&mut out, v);
    proof {
        lemma_count_false_zero(found@);
    }
    assert(effect_views(out@) =~= doctor_spec(found@, lock, cache_dir@, cache_ok, state_dir@, state_ok, dns@));
    (out, result)
}

} // verus!
