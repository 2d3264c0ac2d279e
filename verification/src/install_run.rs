//! The course of `atha install`: which outside work comes next, given what
//! the previous work gave back.
//!
//! The run asks pacman about each package in turn, then, in plan mode,
//! simulates the transaction and probes the AUR; in dry-run mode it only
//! reports; in a real run it asks for confirmation, installs the official
//! packages in one pacman run and builds each AUR package in turn.

use vstd::prelude::*;
use crate::text::views;
use crate::names::{invalid_name_message, is_valid_pkg, validate_packages};
use crate::paths::{aur_repo_url, command_not_found};
use crate::pacman::{
    checked_transaction_total, install_args, makepkg_args, parse_transaction,
    parse_transaction_spec, read_simulation, simulated_transaction, simulation_args,
    simulation_args_spec, txn_total, with_noconfirm,
    TxnRow,
};
use crate::install::{
    aur_clone_failed, aur_result, aur_result_spec, aur_start, aur_start_spec, classify_install,
    clone_args, install_cancel_spec, install_cancelled, install_done, install_dry_run,
    install_dry_run_spec, install_outline, install_outline_spec, install_plan, install_plan_spec,
    install_request_message, install_skips, install_skips_spec, is_aur, is_official, is_skip,
    official_result, official_result_spec, official_start, official_start_spec, opt_txn_view, pick,
    InstallSplit,
};
use crate::report::{append_effects, effect_views, push_effect, rec, Effect, EffectV, Tone};
use crate::session::{confirm_prompt, is_yes, is_yes_spec};
use crate::flow::{changes_system, finish_err, finish_ok, Event, EventV, Request, RequestV};

verus! {

/// Where an install run stands: what outside work it waits for.
#[derive(Clone, Copy, PartialEq, Eq, Structural, Debug)]
pub enum InstallStage {
    /// Not started.
    Begin,
    /// Waits to know whether pacman is installed.
    PacmanLocated,
    /// Waits to know whether package `i` is installed.
    Installed(usize),
    /// Waits to know whether package `i` is in the sync databases.
    InRepos(usize),
    /// Plan mode: waits for the simulated transaction.
    Simulated,
    /// Plan mode: waits to know whether AUR package `i` answers.
    Reached(usize),
    /// Waits for the user's answer.
    Confirming,
    /// Waits for the pacman run that installs the official packages.
    OfficialRan,
    /// Waits to know whether git is installed.
    GitLocated,
    /// Waits to know whether makepkg is installed.
    MakepkgLocated,
    /// Waits for the build directory of AUR package `i`.
    DirReady(usize),
    /// Waits for the fetch of AUR package `i`.
    Fetched(usize),
    /// Waits for the build of AUR package `i`.
    Built(usize),
    /// Waits for the removal of the build directory of AUR package `i`.
    Cleaned(usize),
    /// Waits for the removal of the build directory of an AUR package that
    /// failed; the install then fails.
    Discarded,
    /// Finished.
    Over,
}

/// The abstract state of an install run.
pub struct InstallView {
    pub pkgs: Seq<Seq<char>>,
    pub plan: bool,
    pub dry_run: bool,
    pub yes: bool,
    pub stage: InstallStage,
    pub installed: Seq<bool>,
    pub in_repos: Seq<bool>,
    pub txn: Option<Seq<(Seq<char>, u64)>>,
    pub reachable: Seq<bool>,
    pub dir: Seq<char>,
    pub error: Seq<char>,
}

/// The packages that come from the official repositories.
pub open spec fn official_of(v: InstallView) -> Seq<Seq<char>> {
    pick(v.pkgs, is_official(v.installed, v.in_repos))
}

/// The packages built from the AUR.
pub open spec fn aur_of(v: InstallView) -> Seq<Seq<char>> {
    pick(v.pkgs, is_aur(v.installed, v.in_repos))
}

/// The packages installed already.
pub open spec fn skip_of(v: InstallView) -> Seq<Seq<char>> {
    pick(v.pkgs, is_skip(v.installed))
}

/// The event that answers the work a stage waits for.
pub open spec fn install_expects(stage: InstallStage, e: EventV) -> bool {
    match stage {
        InstallStage::Begin => e is Start,
        InstallStage::PacmanLocated => e is Located,
        InstallStage::Installed(_) => e is Status,
        InstallStage::InRepos(_) => e is Status,
        InstallStage::Simulated => e is Captured,
        InstallStage::Reached(_) => e is Status,
        InstallStage::Confirming => e is Answer,
        InstallStage::OfficialRan => e is Ran,
        InstallStage::GitLocated => e is Located,
        InstallStage::MakepkgLocated => e is Located,
        InstallStage::DirReady(_) => e is Dir,
        InstallStage::Fetched(_) => e is Ran,
        InstallStage::Built(_) => e is Ran,
        InstallStage::Cleaned(_) => e is Ack,
        InstallStage::Discarded => e is Ack,
        InstallStage::Over => false,
    }
}

/// The stages of a real run (one that may change the system).
pub open spec fn real_stage(stage: InstallStage) -> bool {
    match stage {
        InstallStage::Confirming => true,
        InstallStage::OfficialRan => true,
        InstallStage::GitLocated => true,
        InstallStage::MakepkgLocated => true,
        InstallStage::DirReady(_) => true,
        InstallStage::Fetched(_) => true,
        InstallStage::Built(_) => true,
        InstallStage::Cleaned(_) => true,
        InstallStage::Discarded => true,
        _ => false,
    }
}

/// The consistent states of an install run.
pub open spec fn install_wf(v: InstallView) -> bool {
    &&& v.pkgs.len() <= usize::MAX
    &&& real_stage(v.stage) ==> !v.plan && !v.dry_run
    &&& match v.stage {
        InstallStage::Begin => v.installed.len() == 0 && v.in_repos.len() == 0,
        InstallStage::PacmanLocated => v.installed.len() == 0 && v.in_repos.len() == 0,
        InstallStage::Installed(i) => i < v.pkgs.len() && v.installed.len() == i
            && v.in_repos.len() == i,
        InstallStage::InRepos(i) => i < v.pkgs.len() && v.installed.len() == i + 1
            && v.in_repos.len() == i && !v.installed[i as int],
        InstallStage::Over => true,
        _ => v.installed.len() == v.pkgs.len() && v.in_repos.len() == v.pkgs.len(),
    }
    &&& v.stage == InstallStage::Simulated ==> v.plan && official_of(v).len() > 0
    &&& v.stage matches InstallStage::Reached(i) ==> v.plan && i < aur_of(v).len()
        && v.reachable.len() == i && (v.txn matches Some(t) ==> txn_total(t) <= u64::MAX)
    &&& v.stage matches InstallStage::DirReady(i) ==> i < aur_of(v).len()
    &&& v.stage matches InstallStage::Fetched(i) ==> i < aur_of(v).len()
    &&& v.stage matches InstallStage::Built(i) ==> i < aur_of(v).len()
    &&& v.stage matches InstallStage::Cleaned(i) ==> i < aur_of(v).len()
}

/// The question asked before installing.
pub open spec fn install_question() -> Seq<char> {
    "Proceed with installation?"@ + " (y/N) "@
}

/// What ends a completed install.
pub open spec fn install_done_spec() -> Seq<EffectV> {
    seq![
        EffectV::Show(Tone::Plain, Seq::<char>::empty()),
        EffectV::Show(Tone::Success, "Install process completed"@),
    ]
}

/// The state with another stage.
pub open spec fn at(v: InstallView, stage: InstallStage) -> InstallView {
    InstallView { stage, ..v }
}

/// The state that waits for the removal of a failed package's build
/// directory, keeping the error the install then fails with.
pub open spec fn discard(v: InstallView, m: Seq<char>) -> InstallView {
    InstallView { stage: InstallStage::Discarded, error: m, ..v }
}

/// The next step once the building of AUR packages reaches package `i`.
pub open spec fn build_from(v: InstallView, i: nat) -> (Seq<EffectV>, RequestV, InstallView) {
    if i < aur_of(v).len() {
        (Seq::empty(), RequestV::PrepareBuild(aur_of(v)[i as int]), at(v, InstallStage::DirReady(i as usize)))
    } else {
        (install_done_spec(), RequestV::Finish(Ok(())), at(v, InstallStage::Over))
    }
}

/// The next step once the official packages are dealt with, after `eff`.
pub open spec fn aur_phase(v: InstallView, eff: Seq<EffectV>) -> (Seq<EffectV>, RequestV, InstallView) {
    if aur_of(v).len() > 0 {
        (eff, RequestV::Locate("git"@), at(v, InstallStage::GitLocated))
    } else {
        (eff + install_done_spec(), RequestV::Finish(Ok(())), at(v, InstallStage::Over))
    }
}

/// The next step once the install is confirmed, after `prefix`.
pub open spec fn proceed(v: InstallView, prefix: Seq<EffectV>) -> (Seq<EffectV>, RequestV, InstallView) {
    let eff = prefix + install_skips_spec(skip_of(v));
    if official_of(v).len() > 0 {
        (
            eff + official_start_spec(official_of(v)),
            RequestV::Execute(
                "pacman"@,
                with_noconfirm(seq!["-S"@, "--needed"@] + official_of(v), v.yes),
                true,
                None,
                true,
            ),
            at(v, InstallStage::OfficialRan),
        )
    } else {
        aur_phase(v, eff)
    }
}

/// The next step of plan mode once AUR package `i` is to be probed.
pub open spec fn probe_from(v: InstallView, i: nat) -> (Seq<EffectV>, RequestV, InstallView) {
    if i < aur_of(v).len() {
        (
            Seq::empty(),
            RequestV::Probe("https://aur.archlinux.org/"@ + aur_of(v)[i as int] + ".git"@),
            at(v, InstallStage::Reached(i as usize)),
        )
    } else {
        (
            install_plan_spec(official_of(v), aur_of(v), skip_of(v), v.txn, v.reachable),
            RequestV::Finish(Ok(())),
            at(v, InstallStage::Over),
        )
    }
}

/// The step once every package has been looked up.
pub open spec fn decide(v: InstallView) -> (Seq<EffectV>, RequestV, InstallView) {
    let o = official_of(v);
    let a = aur_of(v);
    let s = skip_of(v);
    if v.plan {
        if o.len() > 0 {
            (
                Seq::empty(),
                RequestV::Capture("pacman"@, simulation_args_spec(false, o)->0),
                at(v, InstallStage::Simulated),
            )
        } else {
            probe_from(InstallView { txn: None, reachable: Seq::empty(), ..v }, 0)
        }
    } else if v.dry_run {
        (install_dry_run_spec(v.pkgs, o, a, s, v.yes), RequestV::Finish(Ok(())), at(v, InstallStage::Over))
    } else if o.len() + a.len() == 0 {
        (install_outline_spec(o, a, s), RequestV::Finish(Ok(())), at(v, InstallStage::Over))
    } else if v.yes {
        proceed(v, install_outline_spec(o, a, s))
    } else {
        (install_outline_spec(o, a, s), RequestV::Confirm(install_question()), at(v, InstallStage::Confirming))
    }
}

/// The step that asks about package `j`, or decides once all are known.
pub open spec fn query_from(v: InstallView, j: nat) -> (Seq<EffectV>, RequestV, InstallView) {
    if j < v.pkgs.len() {
        (Seq::empty(), RequestV::Query(seq!["-Qi"@, v.pkgs[j as int]]), at(v, InstallStage::Installed(j as usize)))
    } else {
        decide(v)
    }
}

/// The index of the first invalid package name.
pub open spec fn first_invalid(ps: Seq<Seq<char>>) -> int {
    choose|k: int|
        0 <= k < ps.len() && !is_valid_pkg(#[trigger] ps[k]) && (forall|i: int|
            0 <= i < k ==> is_valid_pkg(#[trigger] ps[i]))
}

/// The transcript of an install run: given the state and the outcome of the
/// work it waited for, what is shown, logged and recorded, what is asked
/// for next, and the new state.
pub open spec fn install_next(v: InstallView, e: EventV) -> (Seq<EffectV>, RequestV, InstallView) {
    match (v.stage, e) {
        (InstallStage::Begin, EventV::Start) => (
            Seq::empty(),
            RequestV::Locate("pacman"@),
            at(v, InstallStage::PacmanLocated),
        ),
        (InstallStage::PacmanLocated, EventV::Located(found)) => if !found {
            (
                Seq::empty(),
                RequestV::Finish(Err(command_not_found("pacman"@))),
                at(v, InstallStage::Over),
            )
        } else if exists|k: int| 0 <= k < v.pkgs.len() && !is_valid_pkg(#[trigger] v.pkgs[k]) {
            (
                Seq::empty(),
                RequestV::Finish(Err(invalid_name_message(v.pkgs[first_invalid(v.pkgs)]))),
                at(v, InstallStage::Over),
            )
        } else {
            let r = query_from(v, 0);
            (
                seq![EffectV::Log("Install requested for packages: "@ + crate::text::join_spec(v.pkgs, " "@))]
                    + r.0,
                r.1,
                r.2,
            )
        },
        (InstallStage::Installed(i), EventV::Status(b)) => if b {
            query_from(
                InstallView { installed: v.installed.push(true), in_repos: v.in_repos.push(false), ..v },
                (i + 1) as nat,
            )
        } else {
            (
                Seq::empty(),
                RequestV::Query(seq!["-Si"@, v.pkgs[i as int]]),
                InstallView { installed: v.installed.push(false), stage: InstallStage::InRepos(i), ..v },
            )
        },
        (InstallStage::InRepos(i), EventV::Status(b)) => query_from(
            InstallView { in_repos: v.in_repos.push(b), ..v },
            (i + 1) as nat,
        ),
        (InstallStage::Simulated, EventV::Captured(c)) => probe_from(
            InstallView {
                txn: simulated_transaction(c),
                reachable: Seq::empty(),
                ..v
            },
            0,
        ),
        (InstallStage::Reached(i), EventV::Status(b)) => probe_from(
            InstallView { reachable: v.reachable.push(b), ..v },
            (i + 1) as nat,
        ),
        (InstallStage::Confirming, EventV::Answer(a)) => match a {
            Err(m) => (Seq::empty(), RequestV::Finish(Err(m)), at(v, InstallStage::Over)),
            Ok(line) => if is_yes_spec(line) {
                proceed(v, Seq::empty())
            } else {
                (
                    install_cancel_spec(v.pkgs, official_of(v), aur_of(v)),
                    RequestV::Finish(Ok(())),
                    at(v, InstallStage::Over),
                )
            },
        },
        (InstallStage::OfficialRan, EventV::Ran(r)) => match r {
            Err(m) => (Seq::empty(), RequestV::Finish(Err(m)), at(v, InstallStage::Over)),
            Ok(ok) => if ok {
                aur_phase(v, official_result_spec(official_of(v), true))
            } else {
                (
                    official_result_spec(official_of(v), false),
                    RequestV::Finish(Err("Failed to install official packages"@)),
                    at(v, InstallStage::Over),
                )
            },
        },
        (InstallStage::GitLocated, EventV::Located(found)) => if found {
            (Seq::empty(), RequestV::Locate("makepkg"@), at(v, InstallStage::MakepkgLocated))
        } else {
            (Seq::empty(), RequestV::Finish(Err(command_not_found("git"@))), at(v, InstallStage::Over))
        },
        (InstallStage::MakepkgLocated, EventV::Located(found)) => if found {
            build_from(v, 0)
        } else {
            (
                Seq::empty(),
                RequestV::Finish(Err(command_not_found("makepkg"@))),
                at(v, InstallStage::Over),
            )
        },
        (InstallStage::DirReady(i), EventV::Dir(d)) => (
            aur_start_spec(aur_of(v)[i as int], d),
            RequestV::Execute(
                "git"@,
                seq!["clone"@, "https://aur.archlinux.org/"@ + aur_of(v)[i as int] + ".git"@, d],
                false,
                None,
                false,
            ),
            InstallView { dir: d, stage: InstallStage::Fetched(i), ..v },
        ),
        (InstallStage::Fetched(i), EventV::Ran(r)) => match r {
            Err(m) => (Seq::empty(), RequestV::Cleanup, discard(v, m)),
            Ok(ok) => if ok {
                (
                    Seq::empty(),
                    RequestV::Execute("makepkg"@, with_noconfirm(seq!["-si"@], v.yes), false, Some(v.dir), false),
                    at(v, InstallStage::Built(i)),
                )
            } else {
                (
                    seq![rec("install"@, aur_of(v)[i as int], "aur"@, "failed"@, "git clone failed"@)],
                    RequestV::Cleanup,
                    discard(v, "Failed to clone AUR package: "@ + aur_of(v)[i as int]),
                )
            },
        },
        (InstallStage::Built(i), EventV::Ran(r)) => match r {
            Err(m) => (Seq::empty(), RequestV::Cleanup, discard(v, m)),
            Ok(ok) => if ok {
                (aur_result_spec(aur_of(v)[i as int], true), RequestV::Cleanup, at(v, InstallStage::Cleaned(i)))
            } else {
                (
                    aur_result_spec(aur_of(v)[i as int], false),
                    RequestV::Cleanup,
                    discard(v, "Failed install "@ + aur_of(v)[i as int]),
                )
            },
        },
        (InstallStage::Cleaned(i), EventV::Ack) => build_from(v, (i + 1) as nat),
        (InstallStage::Discarded, EventV::Ack) => (
            Seq::empty(),
            RequestV::Finish(Err(v.error)),
            at(v, InstallStage::Over),
        ),
        _ => (Seq::empty(), RequestV::Finish(Ok(())), at(v, InstallStage::Over)),
    }
}

/// A run never changes its mode.
pub proof fn lemma_install_mode_kept(v: InstallView, e: EventV)
    ensures
        install_next(v, e).2.plan == v.plan,
        install_next(v, e).2.dry_run == v.dry_run,
        install_next(v, e).2.yes == v.yes,
        install_next(v, e).2.pkgs == v.pkgs,
{
    match v.stage {
        InstallStage::Begin => {},
        InstallStage::PacmanLocated => {},
        InstallStage::Installed(_) => {},
        InstallStage::InRepos(_) => {},
        InstallStage::Simulated => {},
        InstallStage::Reached(_) => {},
        InstallStage::Confirming => {},
        InstallStage::OfficialRan => {},
        InstallStage::GitLocated => {},
        InstallStage::MakepkgLocated => {},
        InstallStage::DirReady(_) => {},
        InstallStage::Fetched(_) => {},
        InstallStage::Built(_) => {},
        InstallStage::Cleaned(_) => {},
        InstallStage::Discarded => {},
        InstallStage::Over => {},
    }
}

/// Plan and dry-run installs change nothing: in those modes no step of the
/// run asks for a package operation or a build directory, whatever the
/// outcome of the work before.
pub proof fn law_install_preview_changes_nothing(v: InstallView, e: EventV)
    requires
        install_wf(v),
        v.plan || v.dry_run,
    ensures
        !changes_system(install_next(v, e).1),
        install_next(v, e).2.plan == v.plan,
        install_next(v, e).2.dry_run == v.dry_run,
{
}

/// The stages past the confirmation: reached once the user agreed, or
/// directly with `--yes`.
pub open spec fn agreed_stage(stage: InstallStage) -> bool {
    real_stage(stage) && stage != InstallStage::Confirming
}

/// The user's answer agrees to go on.
pub open spec fn agrees(e: EventV) -> bool {
    e matches EventV::Answer(Ok(l)) && is_yes_spec(l)
}

/// Without `--yes`, nothing changes before the user agrees: a step asks for
/// a change, or enters a stage past the confirmation, only from such a stage
/// already or from the confirmation answered yes.
pub proof fn law_install_asks_before_changing(v: InstallView, e: EventV)
    requires
        install_wf(v),
        !v.yes,
    ensures
        (changes_system(install_next(v, e).1) || agreed_stage(install_next(v, e).2.stage)) ==> (
        agreed_stage(v.stage) || (v.stage == InstallStage::Confirming && agrees(e))),
{
}

/// Declining is a normal outcome: an answer other than yes ends the install
/// successfully with nothing changed, and only a failure to read the answer
/// fails it.
pub proof fn law_install_declining_is_not_an_error(v: InstallView, e: EventV)
    requires
        v.stage == InstallStage::Confirming,
    ensures
        (e is Answer && !agrees(e)) ==> !changes_system(install_next(v, e).1),
        e matches EventV::Answer(Ok(l)) ==> (!is_yes_spec(l) ==> install_next(v, e).1
            == RequestV::Finish(Ok(()))),
        e matches EventV::Answer(Err(m)) ==> install_next(v, e).1 == RequestV::Finish(Err(m)),
{
}

/// The stages in which a build directory exists: it has been prepared and
/// its removal not yet asked for.
pub open spec fn holds_build_dir(stage: InstallStage) -> bool {
    stage is Fetched || stage is Built
}

/// A build directory never outlives the install, whether its package
/// builds or fails: from a stage that holds one, the run either goes on
/// working in it or asks for its removal, so it never finishes while one
/// exists; a directory is only prepared when none is held; and once its
/// removal is asked for, none is held.
pub proof fn law_build_dir_removed_before_finish(v: InstallView, e: EventV)
    requires
        install_wf(v),
        install_expects(v.stage, e),
    ensures
        holds_build_dir(v.stage) ==> (install_next(v, e).1 is Cleanup || holds_build_dir(
            install_next(v, e).2.stage,
        )),
        install_next(v, e).1 is Finish ==> !holds_build_dir(v.stage),
        install_next(v, e).1 is PrepareBuild ==> !holds_build_dir(v.stage),
        install_next(v, e).1 is Cleanup ==> !holds_build_dir(install_next(v, e).2.stage),
{
}

/// Every AUR package is built, one after the other in the order requested:
/// once git and makepkg are found, the first AUR package's build directory
/// is prepared; in that directory the package is fetched with `git clone`
/// from its AUR address and, when that succeeds, built with `makepkg -si`;
/// a successful build has its directory removed; and after that removal the
/// next AUR package's directory is prepared, while after the last one the
/// install completes successfully. The AUR packages stay the same through
/// these steps.
pub proof fn law_aur_packages_built_in_order(v: InstallView, e: EventV)
    requires
        install_wf(v),
    ensures
        ({
            let a = aur_of(v);
            let r = install_next(v, e);
            &&& (v.stage == InstallStage::MakepkgLocated && e == EventV::Located(true) && a.len()
                > 0) ==> r.1 == RequestV::PrepareBuild(a[0]) && r.2.stage == InstallStage::DirReady(0)
            &&& (v.stage == InstallStage::MakepkgLocated && e == EventV::Located(true) && a.len()
                == 0) ==> r.1 == RequestV::Finish(Ok(()))
            &&& v.stage matches InstallStage::DirReady(i) ==> (e matches EventV::Dir(d) ==> (
                r.1 == RequestV::Execute(
                    "git"@,
                    seq!["clone"@, "https://aur.archlinux.org/"@ + a[i as int] + ".git"@, d],
                    false,
                    None,
                    false,
                ) && r.2.stage == InstallStage::Fetched(i) && r.2.dir == d))
            &&& v.stage matches InstallStage::Fetched(i) ==> (e == EventV::Ran(Ok(true)) ==> (
                r.1 is Execute && r.1->Execute_0 == "makepkg"@ && r.1->Execute_1[0] == "-si"@
                    && !r.1->Execute_2 && r.1->Execute_3 == Some(v.dir) && r.2.stage
                    == InstallStage::Built(i)))
            &&& v.stage matches InstallStage::Built(i) ==> (e == EventV::Ran(Ok(true)) ==> (r.1
                == RequestV::Cleanup && r.2.stage == InstallStage::Cleaned(i)))
            &&& v.stage matches InstallStage::Cleaned(i) ==> (e == EventV::Ack ==> (if i + 1
                < a.len() {
                r.1 == RequestV::PrepareBuild(a[i + 1]) && r.2.stage == InstallStage::DirReady(
                    (i + 1) as usize,
                )
            } else {
                r.1 == RequestV::Finish(Ok(()))
            }))
            &&& (v.stage is MakepkgLocated || v.stage is DirReady || v.stage is Fetched
                || v.stage is Built || v.stage is Cleaned) ==> aur_of(r.2) == a
        }),
{
    lemma_install_mode_kept(v, e);
}

/// The pacman run that a confirmed install asks for installs the official
/// packages of the state it leaves the run in.
proof fn lemma_proceed_shape(x: InstallView, prefix: Seq<EffectV>)
    ensures
        (proceed(x, prefix).1 is Execute && proceed(x, prefix).1->Execute_0 == "pacman"@) ==> proceed(
            x,
            prefix,
        ).1 == RequestV::Execute(
            "pacman"@,
            with_noconfirm(seq!["-S"@, "--needed"@] + official_of(proceed(x, prefix).2), x.yes),
            true,
            None,
            true,
        ),
{
}

/// Asking about the packages, and deciding once all are known, leads to the
/// same pacman run as [`lemma_proceed_shape`] describes.
proof fn lemma_query_from_shape(x: InstallView, j: nat)
    ensures
        (query_from(x, j).1 is Execute && query_from(x, j).1->Execute_0 == "pacman"@) ==> query_from(
            x,
            j,
        ).1 == RequestV::Execute(
            "pacman"@,
            with_noconfirm(seq!["-S"@, "--needed"@] + official_of(query_from(x, j).2), x.yes),
            true,
            None,
            true,
        ),
{
    if j >= x.pkgs.len() && !x.plan && !x.dry_run && x.yes {
        lemma_proceed_shape(x, install_outline_spec(official_of(x), aur_of(x), skip_of(x)));
    }
}

/// The official install runs `pacman -S --needed` (then `--noconfirm` when
/// asked) on exactly the requested packages that pacman reported neither
/// installed nor missing from the sync databases, in the order requested
/// (all answers are held by the run's new state), as root and showing its
/// output; an installed package or one the sync databases lack is never
/// among them, unless it is also requested at a position that qualifies.
pub proof fn law_official_install_passes_only_repo_packages(v: InstallView, e: EventV)
    requires
        install_wf(v),
    ensures
        ({
            let w = install_next(v, e).2;
            let ok = |i: int| !w.installed[i] && w.in_repos[i];
            install_next(v, e).1 matches RequestV::Execute(p, args, root, dir, show) ==> (p
                == "pacman"@ ==> {
                &&& w.pkgs == v.pkgs
                &&& args.len() >= 2 + if v.yes { 1int } else { 0int }
                &&& args[0] == "-S"@ && args[1] == "--needed"@
                &&& v.yes ==> args.last() == "--noconfirm"@
                &&& args.subrange(2, args.len() - if v.yes { 1int } else { 0int }) == pick(v.pkgs, ok)
                &&& forall|j: int|
                    #![trigger v.pkgs[j]]
                    0 <= j < v.pkgs.len() && !ok(j) && (forall|i: int|
                        0 <= i < v.pkgs.len() && ok(i) ==> v.pkgs[i] != v.pkgs[j])
                        ==> !pick(v.pkgs, ok).contains(v.pkgs[j])
                &&& root && dir is None && show
            })
        }),
{
    let r = install_next(v, e).1;
    let w = install_next(v, e).2;
    let ok = |i: int| !w.installed[i] && w.in_repos[i];
    lemma_install_mode_kept(v, e);
    reveal_strlit("git");
    reveal_strlit("makepkg");
    reveal_strlit("pacman");
    assert("git"@ != "pacman"@) by {
        assert("git"@[0] != "pacman"@[0]);
    }
    assert("makepkg"@ != "pacman"@) by {
        assert("makepkg"@[0] != "pacman"@[0]);
    }
    match v.stage {
        InstallStage::PacmanLocated => {
            lemma_query_from_shape(v, 0);
        },
        InstallStage::Installed(i) => {
            lemma_query_from_shape(
                InstallView { installed: v.installed.push(true), in_repos: v.in_repos.push(false), ..v },
                (i + 1) as nat,
            );
        },
        InstallStage::InRepos(i) => {
            if e is Status {
                lemma_query_from_shape(
                    InstallView { in_repos: v.in_repos.push(e->Status_0), ..v },
                    (i + 1) as nat,
                );
            }
        },
        InstallStage::Confirming => {
            lemma_proceed_shape(v, Seq::empty());
        },
        _ => {},
    }
    if r is Execute && r->Execute_0 == "pacman"@ {
        assert(official_of(w) == pick(v.pkgs, ok)) by {
            assert(ok =~= is_official(w.installed, w.in_repos));
        }
        let args = r->Execute_1;
        assert(args == with_noconfirm(seq!["-S"@, "--needed"@] + official_of(w), v.yes));
        assert(args.subrange(2, args.len() - if v.yes { 1int } else { 0int }) =~= pick(v.pkgs, ok));
        assert forall|j: int|
            #![trigger v.pkgs[j]]
            0 <= j < v.pkgs.len() && !ok(j) && (forall|i: int|
                0 <= i < v.pkgs.len() && ok(i) ==> v.pkgs[i] != v.pkgs[j]) implies !pick(
            v.pkgs,
            ok,
        ).contains(v.pkgs[j]) by {
            if pick(v.pkgs, ok).contains(v.pkgs[j]) {
                let k = choose|k: int| 0 <= k < pick(v.pkgs, ok).len() && pick(v.pkgs, ok)[k] == v.pkgs[j];
                crate::install::lemma_pick_from(v.pkgs, ok, k);
            }
        }
    }
}

/// What a simulated transaction must satisfy: its total size fits in a
/// `u64` (summing it otherwise overflows).
pub open spec fn capture_fits(e: EventV) -> bool {
    e matches EventV::Captured(Some((true, t))) ==> (parse_transaction_spec(t) matches Some(
        rows,
    ) ==> txn_total(rows) <= u64::MAX)
}

proof fn lemma_build_from_wf(v: InstallView, i: nat)
    requires
        v.pkgs.len() <= usize::MAX,
        v.installed.len() == v.pkgs.len(),
        v.in_repos.len() == v.pkgs.len(),
        !v.plan,
        !v.dry_run,
    ensures
        install_wf(build_from(v, i).2),
{
    crate::install::lemma_pick_len(v.pkgs, is_aur(v.installed, v.in_repos));
}

proof fn lemma_aur_phase_wf(v: InstallView, eff: Seq<EffectV>)
    requires
        v.pkgs.len() <= usize::MAX,
        v.installed.len() == v.pkgs.len(),
        v.in_repos.len() == v.pkgs.len(),
        !v.plan,
        !v.dry_run,
    ensures
        install_wf(aur_phase(v, eff).2),
{
}

proof fn lemma_proceed_wf(v: InstallView, prefix: Seq<EffectV>)
    requires
        v.pkgs.len() <= usize::MAX,
        v.installed.len() == v.pkgs.len(),
        v.in_repos.len() == v.pkgs.len(),
        !v.plan,
        !v.dry_run,
    ensures
        install_wf(proceed(v, prefix).2),
{
    lemma_aur_phase_wf(v, prefix + install_skips_spec(skip_of(v)));
}

proof fn lemma_probe_from_wf(v: InstallView, i: nat)
    requires
        v.pkgs.len() <= usize::MAX,
        v.installed.len() == v.pkgs.len(),
        v.in_repos.len() == v.pkgs.len(),
        v.plan,
        v.reachable.len() == i,
        v.txn matches Some(t) ==> txn_total(t) <= u64::MAX,
    ensures
        install_wf(probe_from(v, i).2),
{
    crate::install::lemma_pick_len(v.pkgs, is_aur(v.installed, v.in_repos));
}

proof fn lemma_decide_wf(v: InstallView)
    requires
        v.pkgs.len() <= usize::MAX,
        v.installed.len() == v.pkgs.len(),
        v.in_repos.len() == v.pkgs.len(),
    ensures
        install_wf(decide(v).2),
{
    if v.plan {
        if official_of(v).len() == 0 {
            lemma_probe_from_wf(InstallView { txn: None, reachable: Seq::empty(), ..v }, 0);
        }
    } else if !v.dry_run && official_of(v).len() + aur_of(v).len() != 0 && v.yes {
        lemma_proceed_wf(v, install_outline_spec(official_of(v), aur_of(v), skip_of(v)));
    }
}

proof fn lemma_query_from_wf(v: InstallView, j: nat)
    requires
        v.pkgs.len() <= usize::MAX,
        v.installed.len() == j,
        v.in_repos.len() == j,
        j <= v.pkgs.len(),
    ensures
        install_wf(query_from(v, j).2),
{
    if j >= v.pkgs.len() {
        lemma_decide_wf(v);
    }
}

/// Every step keeps an install run consistent.
pub proof fn lemma_install_wf_next(v: InstallView, e: EventV)
    requires
        install_wf(v),
        install_expects(v.stage, e),
        v.stage == InstallStage::Simulated ==> capture_fits(e),
    ensures
        install_wf(install_next(v, e).2),
{
    match v.stage {
        InstallStage::PacmanLocated => {
            lemma_query_from_wf(v, 0);
        },
        InstallStage::Installed(i) => {
            if e == EventV::Status(true) {
                lemma_query_from_wf(
                    InstallView { installed: v.installed.push(true), in_repos: v.in_repos.push(false), ..v },
                    (i + 1) as nat,
                );
            }
        },
        InstallStage::InRepos(i) => {
            let b = e->Status_0;
            lemma_query_from_wf(InstallView { in_repos: v.in_repos.push(b), ..v }, (i + 1) as nat);
        },
        InstallStage::Simulated => {
            let c = e->Captured_0;
            let w = InstallView {
                txn: simulated_transaction(c),
                reachable: Seq::empty(),
                ..v
            };
            lemma_probe_from_wf(w, 0);
        },
        InstallStage::Reached(i) => {
            let b = e->Status_0;
            lemma_probe_from_wf(InstallView { reachable: v.reachable.push(b), ..v }, (i + 1) as nat);
        },
        InstallStage::Confirming => {
            lemma_proceed_wf(v, Seq::empty());
        },
        InstallStage::OfficialRan => {
            lemma_aur_phase_wf(v, official_result_spec(official_of(v), true));
        },
        InstallStage::MakepkgLocated => {
            lemma_build_from_wf(v, 0);
        },
        InstallStage::Cleaned(i) => {
            lemma_build_from_wf(v, (i + 1) as nat);
        },
        _ => {},
    }
}

// ---------------------------------------------------------------------------
// The run
// ---------------------------------------------------------------------------

/// An install run in progress.
pub struct InstallRun {
    pkgs: Vec<String>,
    plan: bool,
    dry_run: bool,
    yes: bool,
    stage: InstallStage,
    installed: Vec<bool>,
    in_repos: Vec<bool>,
    split: InstallSplit,
    txn: Option<Vec<TxnRow>>,
    reachable: Vec<bool>,
    dir: String,
    error: String,
}

impl View for InstallRun {
    type V = InstallView;

    closed spec fn view(&self) -> InstallView {
        InstallView {
            pkgs: views(self.pkgs@),
            plan: self.plan,
            dry_run: self.dry_run,
            yes: self.yes,
            stage: self.stage,
            installed: self.installed@,
            in_repos: self.in_repos@,
            txn: opt_txn_view(self.txn),
            reachable: self.reachable@,
            dir: self.dir@,
            error: self.error@,
        }
    }
}

impl InstallRun {
    /// The split held by the run matches its answers.
    closed spec fn split_ok(&self) -> bool {
        &&& views(self.split.official@) == official_of(self@)
        &&& views(self.split.aur@) == aur_of(self@)
        &&& views(self.split.skip@) == skip_of(self@)
    }

    /// The run is consistent.
    pub closed spec fn wf(&self) -> bool {
        &&& install_wf(self@)
        &&& match self.stage {
            InstallStage::Begin => true,
            InstallStage::PacmanLocated => true,
            InstallStage::Installed(_) => true,
            InstallStage::InRepos(_) => true,
            InstallStage::Over => true,
            _ => self.split_ok(),
        }
    }

    /// A run that installs `pkgs` in plan mode, dry-run mode or for real,
    /// assuming yes to every question when `yes` is set.
    pub fn new(pkgs: Vec<String>, plan: bool, dry_run: bool, yes: bool) -> (r: Self)
        ensures
            r.wf(),
            r@ == (InstallView {
                pkgs: views(pkgs@),
                plan,
                dry_run,
                yes,
                stage: InstallStage::Begin,
                installed: Seq::empty(),
                in_repos: Seq::empty(),
                txn: None,
                reachable: Seq::empty(),
                dir: Seq::empty(),
                error: Seq::empty(),
            }),
    {
        let n = pkgs.len();
        assert(pkgs@.len() <= usize::MAX);
        let r = InstallRun {
            pkgs,
            plan,
            dry_run,
            yes,
            stage: InstallStage::Begin,
            installed: Vec::new(),
            in_repos: Vec::new(),
            split: InstallSplit { official: Vec::new(), aur: Vec::new(), skip: Vec::new() },
            txn: None,
            reachable: Vec::new(),
            dir: String::new(),
            error: String::new(),
        };
        assert(r@.installed =~= Seq::<bool>::empty());
        r
    }

    /// Whether `ev` is an outcome the run can take now: it answers the
    /// work the run waits for, and a simulated transaction's total size fits
    /// in a `u64`.
    pub fn accepts(&self, ev: &Event) -> (b: bool)
        ensures
            b == (install_expects(self@.stage, ev@) && (self@.stage == InstallStage::Simulated
                ==> capture_fits(ev@))),
    {
        let expected = match (self.stage, ev) {
            (InstallStage::Begin, Event::Start) => true,
            (InstallStage::PacmanLocated, Event::Located(_)) => true,
            (InstallStage::Installed(_), Event::Status(_)) => true,
            (InstallStage::InRepos(_), Event::Status(_)) => true,
            (InstallStage::Simulated, Event::Captured(_)) => true,
            (InstallStage::Reached(_), Event::Status(_)) => true,
            (InstallStage::Confirming, Event::Answer(_)) => true,
            (InstallStage::OfficialRan, Event::Ran(_)) => true,
            (InstallStage::GitLocated, Event::Located(_)) => true,
            (InstallStage::MakepkgLocated, Event::Located(_)) => true,
            (InstallStage::DirReady(_), Event::Dir(_)) => true,
            (InstallStage::Fetched(_), Event::Ran(_)) => true,
            (InstallStage::Built(_), Event::Ran(_)) => true,
            (InstallStage::Cleaned(_), Event::Ack) => true,
            (InstallStage::Discarded, Event::Ack) => true,
            _ => false,
        };
        if !expected {
            return false;
        }
        match (self.stage, ev) {
            (InstallStage::Simulated, Event::Captured(Some((true, text)))) => captured_total_fits(text.as_str()),
            _ => true,
        }
    }

    /// Where the run stands.
    pub fn stage(&self) -> (s: InstallStage)
        ensures
            s == self@.stage,
    {
        self.stage
    }

/// Gives the outcome of the work the run waited for, and gets back what to
    /// show, log and record, and the next work to do (see
    /// [`install_next`]).
    pub fn step(&mut self, ev: Event) -> (r: (Vec<Effect>, Request))
        requires
            old(self).wf(),
            install_expects(old(self)@.stage, ev@),
            old(self)@.stage == InstallStage::Simulated ==> capture_fits(ev@),
        ensures
            (effect_views(r.0@), r.1@, final(self)@) == install_next(old(self)@, ev@),
            final(self).wf(),
    {
        match self.stage {
            InstallStage::Begin => self.on_begin(ev),
            InstallStage::PacmanLocated => self.on_pacman_located(ev),
            InstallStage::Installed(i) => self.on_installed(i, ev),
            InstallStage::InRepos(i) => self.on_in_repos(i, ev),
            InstallStage::Simulated => self.on_simulated(ev),
            InstallStage::Reached(i) => self.on_reached(i, ev),
            InstallStage::Confirming => self.on_confirming(ev),
            InstallStage::OfficialRan => self.on_official_ran(ev),
            InstallStage::GitLocated => self.on_git_located(ev),
            InstallStage::MakepkgLocated => self.on_makepkg_located(ev),
            InstallStage::DirReady(i) => self.on_dir_ready(i, ev),
            InstallStage::Fetched(i) => self.on_fetched(i, ev),
            InstallStage::Built(i) => self.on_built(i, ev),
            InstallStage::Cleaned(i) => self.on_cleaned(i, ev),
            InstallStage::Discarded => self.on_discarded(),
            InstallStage::Over => (Vec::new(), finish_ok()),
        }
    }

    fn on_begin(&mut self, ev: Event) -> (r: (Vec<Effect>, Request))
        requires
            old(self).wf(),
            old(self)@.stage == InstallStage::Begin,
            install_expects(old(self)@.stage, ev@),
        ensures
            (effect_views(r.0@), r.1@, final(self)@) == install_next(old(self)@, ev@),
            final(self).wf(),
    {
        proof {
            lemma_install_wf_next(self@, ev@);
            crate::install::lemma_pick_len(self@.pkgs, is_aur(self@.installed, self@.in_repos));
        }
        self.stage = InstallStage::PacmanLocated;
        (Vec::new(), Request::Locate(String::from_str("pacman")))
    }

    fn on_pacman_located(&mut self, ev: Event) -> (r: (Vec<Effect>, Request))
        requires
            old(self).wf(),
            old(self)@.stage == InstallStage::PacmanLocated,
            install_expects(old(self)@.stage, ev@),
        ensures
            (effect_views(r.0@), r.1@, final(self)@) == install_next(old(self)@, ev@),
            final(self).wf(),
    {
        proof {
            lemma_install_wf_next(self@, ev@);
            crate::install::lemma_pick_len(self@.pkgs, is_aur(self@.installed, self@.in_repos));
        }
        let found = match ev {
            Event::Located(b) => b,
            _ => false,
        };
        if !found {
            self.stage = InstallStage::Over;
            return (Vec::new(), finish_err(not_found("pacman")));
        }
        match validate_packages(&self.pkgs) {
            Err(m) => {
                proof {
                    let ps = self@.pkgs;
                    let k1 = choose|k: int|
                        0 <= k < ps.len() && !is_valid_pkg(#[trigger] ps[k]) && (forall|i: int|
                            0 <= i < k ==> is_valid_pkg(#[trigger] ps[i])) && m@
                            == invalid_name_message(ps[k]);
                    let k2 = first_invalid(ps);
                    assert(0 <= k2 < ps.len() && !is_valid_pkg(ps[k2]) && (forall|i: int|
                        0 <= i < k2 ==> is_valid_pkg(#[trigger] ps[i])));
                    if k1 < k2 {
                        assert(is_valid_pkg(ps[k1]));
                    }
                    if k2 < k1 {
                        assert(is_valid_pkg(ps[k2]));
                    }
                }
                self.stage = InstallStage::Over;
                (Vec::new(), finish_err(m))
            },
            Ok(()) => {
                let mut eff: Vec<Effect> = Vec::new();
                push_effect(&mut eff, Effect::Log(install_request_message(&self.pkgs)));
                let (more, req) = self.query_from(0);
                append_effects(&mut eff, more);
                (eff, req)
            },
        }
    }

    fn on_installed(&mut self, i: usize, ev: Event) -> (r: (Vec<Effect>, Request))
        requires
            old(self).wf(),
            old(self)@.stage == InstallStage::Installed(i),
            install_expects(old(self)@.stage, ev@),
        ensures
            (effect_views(r.0@), r.1@, final(self)@) == install_next(old(self)@, ev@),
            final(self).wf(),
    {
        proof {
            lemma_install_wf_next(self@, ev@);
            crate::install::lemma_pick_len(self@.pkgs, is_aur(self@.installed, self@.in_repos));
        }
        let b = match ev {
            Event::Status(b) => b,
            _ => false,
        };
        if b {
            self.installed.push(true);
            self.in_repos.push(false);
            self.query_from(i + 1)
        } else {
            self.installed.push(false);
            let mut args: Vec<String> = Vec::new();
            crate::report::push_string(&mut args, String::from_str("-Si"));
            crate::report::push_string(&mut args, String::from_str(self.pkgs[i].as_str()));
            assert(views(args@) =~= seq!["-Si"@, self@.pkgs[i as int]]);
            self.stage = InstallStage::InRepos(i);
            (Vec::new(), Request::Query(args))
        }
    }

    fn on_in_repos(&mut self, i: usize, ev: Event) -> (r: (Vec<Effect>, Request))
        requires
            old(self).wf(),
            old(self)@.stage == InstallStage::InRepos(i),
            install_expects(old(self)@.stage, ev@),
        ensures
            (effect_views(r.0@), r.1@, final(self)@) == install_next(old(self)@, ev@),
            final(self).wf(),
    {
        proof {
            lemma_install_wf_next(self@, ev@);
            crate::install::lemma_pick_len(self@.pkgs, is_aur(self@.installed, self@.in_repos));
        }
        let b = match ev {
            Event::Status(b) => b,
            _ => false,
        };
        self.in_repos.push(b);
        self.query_from(i + 1)
    }

    fn on_simulated(&mut self, ev: Event) -> (r: (Vec<Effect>, Request))
        requires
            old(self).wf(),
            old(self)@.stage == InstallStage::Simulated,
            install_expects(old(self)@.stage, ev@),
            capture_fits(ev@),
        ensures
            (effect_views(r.0@), r.1@, final(self)@) == install_next(old(self)@, ev@),
            final(self).wf(),
    {
        proof {
            lemma_install_wf_next(self@, ev@);
            crate::install::lemma_pick_len(self@.pkgs, is_aur(self@.installed, self@.in_repos));
        }
        let t = match ev {
            Event::Captured(c) => read_simulation(&c),
            _ => None,
        };
        self.txn = t;
        self.reachable = Vec::new();
        self.probe_from(0)
    }

    fn on_reached(&mut self, i: usize, ev: Event) -> (r: (Vec<Effect>, Request))
        requires
            old(self).wf(),
            old(self)@.stage == InstallStage::Reached(i),
            install_expects(old(self)@.stage, ev@),
        ensures
            (effect_views(r.0@), r.1@, final(self)@) == install_next(old(self)@, ev@),
            final(self).wf(),
    {
        proof {
            lemma_install_wf_next(self@, ev@);
            crate::install::lemma_pick_len(self@.pkgs, is_aur(self@.installed, self@.in_repos));
        }
        let b = match ev {
            Event::Status(b) => b,
            _ => false,
        };
        self.reachable.push(b);
        self.probe_from(i + 1)
    }

    fn on_confirming(&mut self, ev: Event) -> (r: (Vec<Effect>, Request))
        requires
            old(self).wf(),
            old(self)@.stage == InstallStage::Confirming,
            install_expects(old(self)@.stage, ev@),
        ensures
            (effect_views(r.0@), r.1@, final(self)@) == install_next(old(self)@, ev@),
            final(self).wf(),
    {
        proof {
            lemma_install_wf_next(self@, ev@);
            crate::install::lemma_pick_len(self@.pkgs, is_aur(self@.installed, self@.in_repos));
        }
        match ev {
            Event::Answer(Err(m)) => {
                self.stage = InstallStage::Over;
                (Vec::new(), finish_err(m))
            },
            Event::Answer(Ok(line)) => {
                if is_yes(line.as_str()) {
                    self.proceed(Vec::new())
                } else {
                    let eff = install_cancelled(&self.pkgs, &self.split);
                    self.stage = InstallStage::Over;
                    (eff, finish_ok())
                }
            },
            _ => {
                self.stage = InstallStage::Over;
                (Vec::new(), finish_ok())
            },
        }
    }

    fn on_official_ran(&mut self, ev: Event) -> (r: (Vec<Effect>, Request))
        requires
            old(self).wf(),
            old(self)@.stage == InstallStage::OfficialRan,
            install_expects(old(self)@.stage, ev@),
        ensures
            (effect_views(r.0@), r.1@, final(self)@) == install_next(old(self)@, ev@),
            final(self).wf(),
    {
        proof {
            lemma_install_wf_next(self@, ev@);
            crate::install::lemma_pick_len(self@.pkgs, is_aur(self@.installed, self@.in_repos));
        }
        match ev {
            Event::Ran(Err(m)) => {
                self.stage = InstallStage::Over;
                (Vec::new(), finish_err(m))
            },
            Event::Ran(Ok(ok)) => {
                let (eff, res) = official_result(&self.split.official, ok);
                if ok {
                    self.aur_phase(eff)
                } else {
                    self.stage = InstallStage::Over;
                    (eff, Request::Finish(res))
                }
            },
            _ => {
                self.stage = InstallStage::Over;
                (Vec::new(), finish_ok())
            },
        }
    }

    fn on_git_located(&mut self, ev: Event) -> (r: (Vec<Effect>, Request))
        requires
            old(self).wf(),
            old(self)@.stage == InstallStage::GitLocated,
            install_expects(old(self)@.stage, ev@),
        ensures
            (effect_views(r.0@), r.1@, final(self)@) == install_next(old(self)@, ev@),
            final(self).wf(),
    {
        proof {
            lemma_install_wf_next(self@, ev@);
            crate::install::lemma_pick_len(self@.pkgs, is_aur(self@.installed, self@.in_repos));
        }
        let found = match ev {
            Event::Located(b) => b,
            _ => false,
        };
        if found {
            self.stage = InstallStage::MakepkgLocated;
            (Vec::new(), Request::Locate(String::from_str("makepkg")))
        } else {
            self.stage = InstallStage::Over;
            (Vec::new(), finish_err(not_found("git")))
        }
    }

    fn on_makepkg_located(&mut self, ev: Event) -> (r: (Vec<Effect>, Request))
        requires
            old(self).wf(),
            old(self)@.stage == InstallStage::MakepkgLocated,
            install_expects(old(self)@.stage, ev@),
        ensures
            (effect_views(r.0@), r.1@, final(self)@) == install_next(old(self)@, ev@),
            final(self).wf(),
    {
        proof {
            lemma_install_wf_next(self@, ev@);
            crate::install::lemma_pick_len(self@.pkgs, is_aur(self@.installed, self@.in_repos));
        }
        let found = match ev {
            Event::Located(b) => b,
            _ => false,
        };
        if found {
            self.build_from(0)
        } else {
            self.stage = InstallStage::Over;
            (Vec::new(), finish_err(not_found("makepkg")))
        }
    }

    fn on_dir_ready(&mut self, i: usize, ev: Event) -> (r: (Vec<Effect>, Request))
        requires
            old(self).wf(),
            old(self)@.stage == InstallStage::DirReady(i),
            install_expects(old(self)@.stage, ev@),
        ensures
            (effect_views(r.0@), r.1@, final(self)@) == install_next(old(self)@, ev@),
            final(self).wf(),
    {
        proof {
            lemma_install_wf_next(self@, ev@);
            crate::install::lemma_pick_len(self@.pkgs, is_aur(self@.installed, self@.in_repos));
        }
        let d = match ev {
            Event::Dir(d) => d,
            _ => String::new(),
        };
        let eff = aur_start(self.split.aur[i].as_str(), d.as_str());
        let args = clone_args(self.split.aur[i].as_str(), d.as_str());
        self.dir = d;
        self.stage = InstallStage::Fetched(i);
        (eff, Request::Execute(String::from_str("git"), args, false, None, false))
    }

    fn on_fetched(&mut self, i: usize, ev: Event) -> (r: (Vec<Effect>, Request))
        requires
            old(self).wf(),
            old(self)@.stage == InstallStage::Fetched(i),
            install_expects(old(self)@.stage, ev@),
        ensures
            (effect_views(r.0@), r.1@, final(self)@) == install_next(old(self)@, ev@),
            final(self).wf(),
    {
        proof {
            lemma_install_wf_next(self@, ev@);
            crate::install::lemma_pick_len(self@.pkgs, is_aur(self@.installed, self@.in_repos));
        }
        match ev {
            Event::Ran(Err(m)) => {
                self.error = m;
                self.stage = InstallStage::Discarded;
                (Vec::new(), Request::Cleanup)
            },
            Event::Ran(Ok(ok)) => {
                if ok {
                    let args = makepkg_args(self.yes);
                    let dir = String::from_str(self.dir.as_str());
                    self.stage = InstallStage::Built(i);
                    (
                        Vec::new(),
                        Request::Execute(String::from_str("makepkg"), args, false, Some(dir), false),
                    )
                } else {
                    let (eff, m) = aur_clone_failed(self.split.aur[i].as_str());
                    self.error = m;
                    self.stage = InstallStage::Discarded;
                    (eff, Request::Cleanup)
                }
            },
            _ => {
                self.stage = InstallStage::Over;
                (Vec::new(), finish_ok())
            },
        }
    }

    fn on_built(&mut self, i: usize, ev: Event) -> (r: (Vec<Effect>, Request))
        requires
            old(self).wf(),
            old(self)@.stage == InstallStage::Built(i),
            install_expects(old(self)@.stage, ev@),
        ensures
            (effect_views(r.0@), r.1@, final(self)@) == install_next(old(self)@, ev@),
            final(self).wf(),
    {
        proof {
            lemma_install_wf_next(self@, ev@);
            crate::install::lemma_pick_len(self@.pkgs, is_aur(self@.installed, self@.in_repos));
        }
        match ev {
            Event::Ran(Err(m)) => {
                self.error = m;
                self.stage = InstallStage::Discarded;
                (Vec::new(), Request::Cleanup)
            },
            Event::Ran(Ok(ok)) => {
                let (eff, res) = aur_result(self.split.aur[i].as_str(), ok);
                if ok {
                    self.stage = InstallStage::Cleaned(i);
                } else {
                    self.error = match res {
                        Err(m) => m,
                        Ok(()) => String::new(),
                    };
                    self.stage = InstallStage::Discarded;
                }
                (eff, Request::Cleanup)
            },
            _ => {
                self.stage = InstallStage::Over;
                (Vec::new(), finish_ok())
            },
        }
    }

    fn on_cleaned(&mut self, i: usize, ev: Event) -> (r: (Vec<Effect>, Request))
        requires
            old(self).wf(),
            old(self)@.stage == InstallStage::Cleaned(i),
            install_expects(old(self)@.stage, ev@),
        ensures
            (effect_views(r.0@), r.1@, final(self)@) == install_next(old(self)@, ev@),
            final(self).wf(),
    {
        proof {
            lemma_install_wf_next(self@, ev@);
            crate::install::lemma_pick_len(self@.pkgs, is_aur(self@.installed, self@.in_repos));
        }
        self.build_from(i + 1)
    }

    fn on_discarded(&mut self) -> (r: (Vec<Effect>, Request))
        requires
            old(self).wf(),
            old(self)@.stage == InstallStage::Discarded,
        ensures
            (effect_views(r.0@), r.1@, final(self)@) == install_next(old(self)@, EventV::Ack),
            final(self).wf(),
    {
        let m = String::from_str(self.error.as_str());
        self.stage = InstallStage::Over;
        (Vec::new(), finish_err(m))
    }

    fn build_from(&mut self, i: usize) -> (r: (Vec<Effect>, Request))
        requires
            old(self)@.pkgs.len() <= usize::MAX,
            old(self).split_ok(),
            old(self)@.installed.len() == old(self)@.pkgs.len(),
            old(self)@.in_repos.len() == old(self)@.pkgs.len(),
            !old(self).plan,
            !old(self).dry_run,
        ensures
            (effect_views(r.0@), r.1@, final(self)@) == build_from(old(self)@, i as nat),
            final(self).wf(),
    {
        proof {
            lemma_build_from_wf(self@, i as nat);
        }
        if i < self.split.aur.len() {
            let p = String::from_str(self.split.aur[i].as_str());
            self.stage = InstallStage::DirReady(i);
            (Vec::new(), Request::PrepareBuild(p))
        } else {
            self.stage = InstallStage::Over;
            (install_done(), finish_ok())
        }
    }

    fn aur_phase(&mut self, eff: Vec<Effect>) -> (r: (Vec<Effect>, Request))
        requires
            old(self)@.pkgs.len() <= usize::MAX,
            old(self).split_ok(),
            old(self)@.installed.len() == old(self)@.pkgs.len(),
            old(self)@.in_repos.len() == old(self)@.pkgs.len(),
            !old(self).plan,
            !old(self).dry_run,
        ensures
            (effect_views(r.0@), r.1@, final(self)@) == aur_phase(old(self)@, effect_views(eff@)),
            final(self).wf(),
    {
        proof {
            lemma_aur_phase_wf(self@, effect_views(eff@));
        }
        if self.split.aur.len() > 0 {
            self.stage = InstallStage::GitLocated;
            (eff, Request::Locate(String::from_str("git")))
        } else {
            self.stage = InstallStage::Over;
            let mut eff = eff;
            append_effects(&mut eff, install_done());
            (eff, finish_ok())
        }
    }

    fn proceed(&mut self, prefix: Vec<Effect>) -> (r: (Vec<Effect>, Request))
        requires
            old(self)@.pkgs.len() <= usize::MAX,
            old(self).split_ok(),
            old(self)@.installed.len() == old(self)@.pkgs.len(),
            old(self)@.in_repos.len() == old(self)@.pkgs.len(),
            !old(self).plan,
            !old(self).dry_run,
        ensures
            (effect_views(r.0@), r.1@, final(self)@) == proceed(old(self)@, effect_views(prefix@)),
            final(self).wf(),
    {
        proof {
            lemma_proceed_wf(self@, effect_views(prefix@));
        }
        let mut eff = prefix;
        append_effects(&mut eff, install_skips(&self.split));
        if self.split.official.len() > 0 {
            append_effects(&mut eff, official_start(&self.split.official));
            let args = install_args(&self.split.official, self.yes);
            self.stage = InstallStage::OfficialRan;
            (eff, Request::Execute(String::from_str("pacman"), args, true, None, true))
        } else {
            self.aur_phase(eff)
        }
    }

    fn probe_from(&mut self, i: usize) -> (r: (Vec<Effect>, Request))
        requires
            old(self).split_ok(),
            old(self)@.pkgs.len() <= usize::MAX,
            old(self)@.installed.len() == old(self)@.pkgs.len(),
            old(self)@.in_repos.len() == old(self)@.pkgs.len(),
            old(self).plan,
            old(self)@.reachable.len() == i,
            i <= aur_of(old(self)@).len(),
            old(self)@.txn matches Some(t) ==> txn_total(t) <= u64::MAX,
        ensures
            (effect_views(r.0@), r.1@, final(self)@) == probe_from(old(self)@, i as nat),
            final(self).wf(),
    {
        proof {
            lemma_probe_from_wf(self@, i as nat);
        }
        if i < self.split.aur.len() {
            let url = aur_repo_url(self.split.aur[i].as_str());
            self.stage = InstallStage::Reached(i);
            (Vec::new(), Request::Probe(url))
        } else {
            let eff = install_plan(&self.split, &self.txn, &self.reachable);
            self.stage = InstallStage::Over;
            (eff, finish_ok())
        }
    }

    fn decide(&mut self) -> (r: (Vec<Effect>, Request))
        requires
            old(self)@.pkgs.len() <= usize::MAX,
            old(self)@.installed.len() == old(self)@.pkgs.len(),
            old(self)@.in_repos.len() == old(self)@.pkgs.len(),
        ensures
            (effect_views(r.0@), r.1@, final(self)@) == decide(old(self)@),
            final(self).wf(),
    {
        proof {
            lemma_decide_wf(self@);
        }
        self.split = classify_install(&self.pkgs, &self.installed, &self.in_repos);
        if self.plan {
            if self.split.official.len() > 0 {
                let args = simulation_args(false, &self.split.official);
                match args {
                    Some(a) => {
                        self.stage = InstallStage::Simulated;
                        (Vec::new(), Request::Capture(String::from_str("pacman"), a))
                    },
                    None => {
                        self.stage = InstallStage::Over;
                        (Vec::new(), finish_ok())
                    },
                }
            } else {
                self.txn = None;
                self.reachable = Vec::new();
                assert(self@ == InstallView { txn: None, reachable: Seq::empty(), ..old(self)@ });
                self.probe_from(0)
            }
        } else if self.dry_run {
            let eff = install_dry_run(&self.pkgs, &self.split, self.yes);
            self.stage = InstallStage::Over;
            (eff, finish_ok())
        } else {
            let (outline, go_on) = install_outline(&self.split);
            if !go_on {
                self.stage = InstallStage::Over;
                (outline, finish_ok())
            } else if self.yes {
                self.proceed(outline)
            } else {
                self.stage = InstallStage::Confirming;
                (outline, Request::Confirm(confirm_prompt("Proceed with installation?")))
            }
        }
    }

    fn query_from(&mut self, j: usize) -> (r: (Vec<Effect>, Request))
        requires
            old(self)@.pkgs.len() <= usize::MAX,
            old(self)@.installed.len() == j,
            old(self)@.in_repos.len() == j,
            j <= old(self)@.pkgs.len(),
        ensures
            (effect_views(r.0@), r.1@, final(self)@) == query_from(old(self)@, j as nat),
            final(self).wf(),
    {
        proof {
            lemma_query_from_wf(self@, j as nat);
        }
        if j < self.pkgs.len() {
            let mut args: Vec<String> = Vec::new();
            crate::report::push_string(&mut args, String::from_str("-Qi"));
            crate::report::push_string(&mut args, String::from_str(self.pkgs[j].as_str()));
            assert(views(args@) =~= seq!["-Qi"@, self@.pkgs[j as int]]);
            self.stage = InstallStage::Installed(j);
            (Vec::new(), Request::Query(args))
        } else {
            self.decide()
        }
    }
}

/// The message of the error for a missing command.
fn not_found(name: &str) -> (m: String)
    ensures
        m@ == command_not_found(name@),
{
    let mut m = String::from_str("Command not found: ");
    m.append(name);
    m
}

/// Whether the transaction read from `text` (if any) has a total size that
/// fits in a `u64`.
pub fn captured_total_fits(text: &str) -> (b: bool)
    ensures
        b == (parse_transaction_spec(text@) matches Some(rows) ==> txn_total(rows) <= u64::MAX),
{
    match parse_transaction(text) {
        Some(rows) => checked_transaction_total(&rows).is_some(),
        None => true,
    }
}

} // verus!
