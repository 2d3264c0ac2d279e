//! The course of `atha remove`: which outside work comes next, given what
//! the previous work gave back.
//!
//! The run asks pacman whether each package is installed; in plan mode it
//! simulates the removal (or, failing that, reads each target's installed
//! size); in dry-run mode it only reports; in a real run it asks for
//! confirmation and removes the targets in one pacman run.

use vstd::prelude::*;
use crate::text::{join_spec, views};
use crate::names::{invalid_name_message, is_valid_pkg, validate_packages};
use crate::paths::command_not_found;
use crate::pacman::{
    installed_size, installed_size_spec, read_simulation, remove_args, simulated_transaction,
    simulation_args, simulation_args_spec, with_noconfirm,
};
use crate::install::pick;
use crate::remove::{
    classify_remove, remove_cancel_spec, remove_cancelled, remove_dry_run, remove_dry_run_spec,
    remove_outline, remove_outline_spec, remove_plan, remove_plan_spec, remove_request_message,
    remove_prompt, remove_result, remove_result_spec, remove_start, remove_start_spec, sizes_view,
    RemoveSplit,
};
use crate::report::{append_effects, effect_views, push_effect, Effect, EffectV};
use crate::session::{confirm_prompt, is_yes, is_yes_spec};
use crate::install_run::{
    capture_fits, captured_total_fits, first_invalid, install_next, install_wf, InstallStage,
    InstallView,
};
use crate::flow::{changes_system, finish_err, finish_ok, Event, EventV, Request, RequestV};

verus! {

/// Where a removal run stands: what outside work it waits for.
#[derive(Clone, Copy, PartialEq, Eq, Structural, Debug)]
pub enum RemoveStage {
    /// Not started.
    Begin,
    /// Waits to know whether pacman is installed.
    PacmanLocated,
    /// Waits to know whether package `i` is installed.
    Installed(usize),
    /// Plan mode: waits for the simulated removal.
    Simulated,
    /// Plan mode: waits for the `pacman -Qi` output of target `i`.
    Sized(usize),
    /// Waits for the user's answer.
    Confirming,
    /// Waits for the pacman run that removes the targets.
    Removed,
    /// Finished.
    Over,
}

/// The abstract state of a removal run.
pub struct RemoveView {
    pub pkgs: Seq<Seq<char>>,
    pub plan: bool,
    pub dry_run: bool,
    pub yes: bool,
    pub stage: RemoveStage,
    pub installed: Seq<bool>,
    pub sizes: Seq<Option<Seq<char>>>,
}

/// The installed packages: the targets.
pub open spec fn targets_of(v: RemoveView) -> Seq<Seq<char>> {
    pick(v.pkgs, |i: int| v.installed[i])
}

/// The packages that are not installed.
pub open spec fn missing_of(v: RemoveView) -> Seq<Seq<char>> {
    pick(v.pkgs, |i: int| !v.installed[i])
}

/// The event that answers the work a stage waits for.
pub open spec fn remove_expects(stage: RemoveStage, e: EventV) -> bool {
    match stage {
        RemoveStage::Begin => e is Start,
        RemoveStage::PacmanLocated => e is Located,
        RemoveStage::Installed(_) => e is Status,
        RemoveStage::Simulated => e is Captured,
        RemoveStage::Sized(_) => e is Captured,
        RemoveStage::Confirming => e is Answer,
        RemoveStage::Removed => e is Ran,
        RemoveStage::Over => false,
    }
}

/// The consistent states of a removal run.
pub open spec fn remove_wf(v: RemoveView) -> bool {
    &&& v.pkgs.len() <= usize::MAX
    &&& (v.stage == RemoveStage::Confirming || v.stage == RemoveStage::Removed) ==> !v.plan
        && !v.dry_run
    &&& (v.stage == RemoveStage::Simulated || v.stage is Sized) ==> v.plan
    &&& match v.stage {
        RemoveStage::Begin => v.installed.len() == 0,
        RemoveStage::PacmanLocated => v.installed.len() == 0,
        RemoveStage::Installed(i) => i < v.pkgs.len() && v.installed.len() == i,
        RemoveStage::Sized(i) => v.installed.len() == v.pkgs.len() && i < targets_of(v).len()
            && v.sizes.len() == i,
        RemoveStage::Over => true,
        _ => v.installed.len() == v.pkgs.len(),
    }
}

/// The question asked before removing.
pub open spec fn remove_question() -> Seq<char> {
    "Are you sure you want to remove these packages and unneeded dependencies?"@ + " (y/N) "@
}

/// The state with another stage.
pub open spec fn at(v: RemoveView, stage: RemoveStage) -> RemoveView {
    RemoveView { stage, ..v }
}

/// The pacman run that removes the targets, after `prefix`.
pub open spec fn start_removal(v: RemoveView, prefix: Seq<EffectV>) -> (Seq<EffectV>, RequestV, RemoveView) {
    (
        prefix + remove_start_spec(targets_of(v)),
        RequestV::Execute(
            "pacman"@,
            with_noconfirm(seq!["-Rns"@] + targets_of(v), v.yes),
            true,
            None,
            true,
        ),
        at(v, RemoveStage::Removed),
    )
}

/// The plan step once the sizes of the first `i` targets are known.
pub open spec fn size_from(v: RemoveView, i: nat) -> (Seq<EffectV>, RequestV, RemoveView) {
    if i < targets_of(v).len() {
        (
            Seq::empty(),
            RequestV::Capture("pacman"@, seq!["-Qi"@, targets_of(v)[i as int]]),
            at(v, RemoveStage::Sized(i as usize)),
        )
    } else {
        (
            remove_plan_spec(targets_of(v), missing_of(v), None, v.sizes),
            RequestV::Finish(Ok(())),
            at(v, RemoveStage::Over),
        )
    }
}

/// The step once every package has been looked up.
pub open spec fn remove_decide(v: RemoveView) -> (Seq<EffectV>, RequestV, RemoveView) {
    let t = targets_of(v);
    let m = missing_of(v);
    if v.plan {
        if t.len() > 0 {
            (
                Seq::empty(),
                RequestV::Capture("pacman"@, simulation_args_spec(true, t)->0),
                at(v, RemoveStage::Simulated),
            )
        } else {
            (remove_plan_spec(t, m, None, Seq::empty()), RequestV::Finish(Ok(())), at(v, RemoveStage::Over))
        }
    } else if v.dry_run {
        (remove_dry_run_spec(t, m), RequestV::Finish(Ok(())), at(v, RemoveStage::Over))
    } else if t.len() == 0 {
        (remove_outline_spec(t, m), RequestV::Finish(Ok(())), at(v, RemoveStage::Over))
    } else if v.yes {
        start_removal(v, remove_outline_spec(t, m))
    } else {
        (remove_outline_spec(t, m), RequestV::Confirm(remove_question()), at(v, RemoveStage::Confirming))
    }
}

/// The step that asks about package `j`, or decides once all are known.
pub open spec fn remove_query_from(v: RemoveView, j: nat) -> (Seq<EffectV>, RequestV, RemoveView) {
    if j < v.pkgs.len() {
        (
            Seq::empty(),
            RequestV::Query(seq!["-Qi"@, v.pkgs[j as int]]),
            at(v, RemoveStage::Installed(j as usize)),
        )
    } else {
        remove_decide(v)
    }
}

/// The transcript of a removal run: given the state and the outcome of the
/// work it waited for, what is shown, logged and recorded, what is asked
/// for next, and the new state.
pub open spec fn remove_next(v: RemoveView, e: EventV) -> (Seq<EffectV>, RequestV, RemoveView) {
    match (v.stage, e) {
        (RemoveStage::Begin, EventV::Start) => (
            Seq::empty(),
            RequestV::Locate("pacman"@),
            at(v, RemoveStage::PacmanLocated),
        ),
        (RemoveStage::PacmanLocated, EventV::Located(found)) => if !found {
            (
                Seq::empty(),
                RequestV::Finish(Err(command_not_found("pacman"@))),
                at(v, RemoveStage::Over),
            )
        } else if exists|k: int| 0 <= k < v.pkgs.len() && !is_valid_pkg(#[trigger] v.pkgs[k]) {
            (
                Seq::empty(),
                RequestV::Finish(Err(invalid_name_message(v.pkgs[first_invalid(v.pkgs)]))),
                at(v, RemoveStage::Over),
            )
        } else {
            let r = remove_query_from(v, 0);
            (
                seq![EffectV::Log("Remove requested for packages: "@ + join_spec(v.pkgs, " "@))]
                    + r.0,
                r.1,
                r.2,
            )
        },
        (RemoveStage::Installed(i), EventV::Status(b)) => remove_query_from(
            RemoveView { installed: v.installed.push(b), ..v },
            (i + 1) as nat,
        ),
        (RemoveStage::Simulated, EventV::Captured(c)) => {
            let txn = simulated_transaction(c);
            if txn is Some {
                (
                    remove_plan_spec(targets_of(v), missing_of(v), txn, Seq::empty()),
                    RequestV::Finish(Ok(())),
                    at(v, RemoveStage::Over),
                )
            } else {
                size_from(RemoveView { sizes: Seq::empty(), ..v }, 0)
            }
        },
        (RemoveStage::Sized(i), EventV::Captured(c)) => size_from(
            RemoveView {
                sizes: v.sizes.push(
                    match c {
                        Some((_, t)) => installed_size_spec(t),
                        None => None,
                    },
                ),
                ..v
            },
            (i + 1) as nat,
        ),
        (RemoveStage::Confirming, EventV::Answer(a)) => match a {
            Err(m) => (Seq::empty(), RequestV::Finish(Err(m)), at(v, RemoveStage::Over)),
            Ok(line) => if is_yes_spec(line) {
                start_removal(v, Seq::empty())
            } else {
                (
                    remove_cancel_spec(v.pkgs, targets_of(v)),
                    RequestV::Finish(Ok(())),
                    at(v, RemoveStage::Over),
                )
            },
        },
        (RemoveStage::Removed, EventV::Ran(r)) => match r {
            Err(m) => (Seq::empty(), RequestV::Finish(Err(m)), at(v, RemoveStage::Over)),
            Ok(ok) => (
                remove_result_spec(targets_of(v), ok),
                RequestV::Finish(
                    if ok {
                        Ok(())
                    } else {
                        Err("Remove failed"@)
                    },
                ),
                at(v, RemoveStage::Over),
            ),
        },
        _ => (Seq::empty(), RequestV::Finish(Ok(())), at(v, RemoveStage::Over)),
    }
}

/// Plan and dry-run removals change nothing: in those modes no step of the
/// run asks for a package operation, whatever the outcome of the work
/// before.
pub proof fn law_remove_preview_changes_nothing(v: RemoveView, e: EventV)
    requires
        remove_wf(v),
        v.plan || v.dry_run,
    ensures
        !changes_system(remove_next(v, e).1),
        remove_next(v, e).2.plan == v.plan,
        remove_next(v, e).2.dry_run == v.dry_run,
{
}

/// The user's answer agrees to go on.
pub open spec fn agrees(e: EventV) -> bool {
    e matches EventV::Answer(Ok(l)) && is_yes_spec(l)
}

/// Without `--yes`, nothing is removed before the user agrees: a step asks
/// for a change, or enters the removal, only from the removal already or
/// from the confirmation answered yes.
pub proof fn law_remove_asks_before_changing(v: RemoveView, e: EventV)
    requires
        remove_wf(v),
        !v.yes,
    ensures
        (changes_system(remove_next(v, e).1) || remove_next(v, e).2.stage == RemoveStage::Removed)
            ==> (v.stage == RemoveStage::Removed || (v.stage == RemoveStage::Confirming && agrees(e))),
{
}

/// The removal preview reads pacman's simulation exactly as the install
/// preview does: from the same outcome of the simulation (see
/// [`simulated_transaction`]) the install plan takes the same transaction
/// that the removal plan shows, and without one the removal falls back to
/// the installed size of each target.
pub proof fn law_previews_read_the_simulation_alike(
    v: InstallView,
    w: RemoveView,
    c: Option<(bool, Seq<char>)>,
)
    requires
        install_wf(v),
        v.stage == InstallStage::Simulated,
        remove_wf(w),
        w.stage == RemoveStage::Simulated,
    ensures
        install_next(v, EventV::Captured(c)).2.txn == simulated_transaction(c),
        simulated_transaction(c) is Some ==> remove_next(w, EventV::Captured(c)) == (
            remove_plan_spec(targets_of(w), missing_of(w), simulated_transaction(c), Seq::empty()),
            RequestV::Finish(Ok(())),
            at(w, RemoveStage::Over),
        ),
        simulated_transaction(c) is None ==> remove_next(w, EventV::Captured(c)) == size_from(
            RemoveView { sizes: Seq::empty(), ..w },
            0,
        ),
{
}

/// The packages of a removal command: its arguments between `-Rns` and a
/// final `--noconfirm` (present when `yes`).
pub open spec fn removal_packages(args: Seq<Seq<char>>, yes: bool) -> Seq<Seq<char>> {
    args.subrange(1, args.len() - if yes {
        1int
    } else {
        0int
    })
}

/// The removal runs `pacman -Rns` (then `--noconfirm` when asked) on exactly
/// the requested packages that pacman reported installed, in the order
/// requested (all answers are held by the run's new state), as root and
/// showing its output; a package reported not installed, and not also
/// requested at a position reported installed, is never among them.
pub proof fn law_removal_passes_only_installed(v: RemoveView, e: EventV)
    requires
        remove_wf(v),
    ensures
        ({
            let w = remove_next(v, e).2;
            remove_next(v, e).1 matches RequestV::Execute(p, args, root, dir, show) ==> {
                &&& w.pkgs == v.pkgs
                &&& w.installed.len() == v.pkgs.len()
                &&& p == "pacman"@
                &&& args.len() >= 1 + if v.yes { 1int } else { 0int }
                &&& args[0] == "-Rns"@
                &&& v.yes ==> args.last() == "--noconfirm"@
                &&& removal_packages(args, v.yes) == pick(v.pkgs, |i: int| w.installed[i])
                &&& forall|j: int|
                    #![trigger v.pkgs[j]]
                    0 <= j < v.pkgs.len() && !w.installed[j] && (forall|i: int|
                        0 <= i < v.pkgs.len() && w.installed[i] ==> v.pkgs[i] != v.pkgs[j])
                        ==> !removal_packages(args, v.yes).contains(v.pkgs[j])
                &&& root && dir is None && show
            }
        }),
{
    let r = remove_next(v, e).1;
    let w = remove_next(v, e).2;
    if r is Execute {
        let want = |i: int| w.installed[i];
        assert(start_removal(w, Seq::empty()).1 == r);
        assert(targets_of(w) == pick(v.pkgs, want)) by {
            assert(want =~= (|i: int| w.installed[i]));
        }
        let args = r->Execute_1;
        let t = pick(v.pkgs, want);
        assert(removal_packages(args, v.yes) =~= t);
        assert forall|j: int|
            #![trigger v.pkgs[j]]
            0 <= j < v.pkgs.len() && !w.installed[j] && (forall|i: int|
                0 <= i < v.pkgs.len() && w.installed[i] ==> v.pkgs[i] != v.pkgs[j]) implies !t.contains(
            v.pkgs[j],
        ) by {
            if t.contains(v.pkgs[j]) {
                let k = choose|k: int| 0 <= k < t.len() && t[k] == v.pkgs[j];
                crate::install::lemma_pick_from(v.pkgs, want, k);
            }
        }
    }
}

/// Declining is a normal outcome: an answer other than yes ends the removal
/// successfully with nothing removed, and only a failure to read the answer
/// fails it.
pub proof fn law_remove_declining_is_not_an_error(v: RemoveView, e: EventV)
    requires
        v.stage == RemoveStage::Confirming,
    ensures
        (e is Answer && !agrees(e)) ==> !changes_system(remove_next(v, e).1),
        e matches EventV::Answer(Ok(l)) ==> (!is_yes_spec(l) ==> remove_next(v, e).1
            == RequestV::Finish(Ok(()))),
        e matches EventV::Answer(Err(m)) ==> remove_next(v, e).1 == RequestV::Finish(Err(m)),
{
}

proof fn lemma_size_from_wf(v: RemoveView, i: nat)
    requires
        v.pkgs.len() <= usize::MAX,
        v.installed.len() == v.pkgs.len(),
        v.plan,
        v.sizes.len() == i,
    ensures
        remove_wf(size_from(v, i).2),
{
    crate::install::lemma_pick_len(v.pkgs, |k: int| v.installed[k]);
}

proof fn lemma_remove_decide_wf(v: RemoveView)
    requires
        v.pkgs.len() <= usize::MAX,
        v.installed.len() == v.pkgs.len(),
    ensures
        remove_wf(remove_decide(v).2),
{
}

proof fn lemma_remove_query_from_wf(v: RemoveView, j: nat)
    requires
        v.pkgs.len() <= usize::MAX,
        v.installed.len() == j,
        j <= v.pkgs.len(),
    ensures
        remove_wf(remove_query_from(v, j).2),
{
    if j >= v.pkgs.len() {
        lemma_remove_decide_wf(v);
    }
}

/// Every step keeps a removal run consistent.
pub proof fn lemma_remove_wf_next(v: RemoveView, e: EventV)
    requires
        remove_wf(v),
        remove_expects(v.stage, e),
    ensures
        remove_wf(remove_next(v, e).2),
{
    match v.stage {
        RemoveStage::PacmanLocated => {
            lemma_remove_query_from_wf(v, 0);
        },
        RemoveStage::Installed(i) => {
            let b = e->Status_0;
            lemma_remove_query_from_wf(RemoveView { installed: v.installed.push(b), ..v }, (i + 1) as nat);
        },
        RemoveStage::Simulated => {
            lemma_size_from_wf(RemoveView { sizes: Seq::empty(), ..v }, 0);
        },
        RemoveStage::Sized(i) => {
            let c = e->Captured_0;
            lemma_size_from_wf(
                RemoveView {
                    sizes: v.sizes.push(
                        match c {
                            Some((_, t)) => installed_size_spec(t),
                            None => None,
                        },
                    ),
                    ..v
                },
                (i + 1) as nat,
            );
        },
        _ => {},
    }
}

// ---------------------------------------------------------------------------
// The run
// ---------------------------------------------------------------------------

/// A removal run in progress.
pub struct RemoveRun {
    pkgs: Vec<String>,
    plan: bool,
    dry_run: bool,
    yes: bool,
    stage: RemoveStage,
    installed: Vec<bool>,
    split: RemoveSplit,
    sizes: Vec<Option<String>>,
}

impl View for RemoveRun {
    type V = RemoveView;

    closed spec fn view(&self) -> RemoveView {
        RemoveView {
            pkgs: views(self.pkgs@),
            plan: self.plan,
            dry_run: self.dry_run,
            yes: self.yes,
            stage: self.stage,
            installed: self.installed@,
            sizes: sizes_view(self.sizes@),
        }
    }
}

impl RemoveRun {
    closed spec fn split_ok(&self) -> bool {
        &&& views(self.split.targets@) == targets_of(self@)
        &&& views(self.split.missing@) == missing_of(self@)
    }

    /// The run is consistent.
    pub closed spec fn wf(&self) -> bool {
        &&& remove_wf(self@)
        &&& match self.stage {
            RemoveStage::Begin => true,
            RemoveStage::PacmanLocated => true,
            RemoveStage::Installed(_) => true,
            RemoveStage::Over => true,
            _ => self.split_ok(),
        }
    }

    /// A run that removes `pkgs` in plan mode, dry-run mode or for real,
    /// assuming yes to every question when `yes` is set.
    pub fn new(pkgs: Vec<String>, plan: bool, dry_run: bool, yes: bool) -> (r: Self)
        ensures
            r.wf(),
            r@ == (RemoveView {
                pkgs: views(pkgs@),
                plan,
                dry_run,
                yes,
                stage: RemoveStage::Begin,
                installed: Seq::empty(),
                sizes: Seq::empty(),
            }),
    {
        let n = pkgs.len();
        let r = RemoveRun {
            pkgs,
            plan,
            dry_run,
            yes,
            stage: RemoveStage::Begin,
            installed: Vec::new(),
            split: RemoveSplit { targets: Vec::new(), missing: Vec::new() },
            sizes: Vec::new(),
        };
        assert(r@.sizes =~= Seq::<Option<Seq<char>>>::empty());
        r
    }

    /// Where the run stands.
    pub fn stage(&self) -> (s: RemoveStage)
        ensures
            s == self@.stage,
    {
        self.stage
    }

    /// Whether `ev` is an outcome the run can take now: it answers the
    /// work the run waits for, and a simulated transaction's total size fits
    /// in a `u64`.
    pub fn accepts(&self, ev: &Event) -> (b: bool)
        ensures
            b == (remove_expects(self@.stage, ev@) && (self@.stage == RemoveStage::Simulated
                ==> capture_fits(ev@))),
    {
        if let (RemoveStage::Simulated, Event::Captured(Some((true, text)))) = (self.stage, ev) {
            return captured_total_fits(text.as_str());
        }
        match (self.stage, ev) {
            (RemoveStage::Begin, Event::Start) => true,
            (RemoveStage::PacmanLocated, Event::Located(_)) => true,
            (RemoveStage::Installed(_), Event::Status(_)) => true,
            (RemoveStage::Simulated, Event::Captured(_)) => true,
            (RemoveStage::Sized(_), Event::Captured(_)) => true,
            (RemoveStage::Confirming, Event::Answer(_)) => true,
            (RemoveStage::Removed, Event::Ran(_)) => true,
            _ => false,
        }
    }

    /// Gives the outcome of the work the run waited for, and gets back what to
    /// show, log and record, and the next work to do (see [`remove_next`]).
    pub fn step(&mut self, ev: Event) -> (r: (Vec<Effect>, Request))
        requires
            old(self).wf(),
            remove_expects(old(self)@.stage, ev@),
            old(self)@.stage == RemoveStage::Simulated ==> capture_fits(ev@),
        ensures
            (effect_views(r.0@), r.1@, final(self)@) == remove_next(old(self)@, ev@),
            final(self).wf(),
    {
        match self.stage {
            RemoveStage::Begin => {
                self.stage = RemoveStage::PacmanLocated;
                (Vec::new(), Request::Locate(String::from_str("pacman")))
            },
            RemoveStage::PacmanLocated => self.on_pacman_located(ev),
            RemoveStage::Installed(i) => self.on_installed(i, ev),
            RemoveStage::Simulated => self.on_simulated(ev),
            RemoveStage::Sized(i) => self.on_sized(i, ev),
            RemoveStage::Confirming => self.on_confirming(ev),
            RemoveStage::Removed => self.on_removed(ev),
            RemoveStage::Over => (Vec::new(), finish_ok()),
        }
    }

    fn on_pacman_located(&mut self, ev: Event) -> (r: (Vec<Effect>, Request))
        requires
            old(self).wf(),
            old(self)@.stage == RemoveStage::PacmanLocated,
            remove_expects(old(self)@.stage, ev@),
        ensures
            (effect_views(r.0@), r.1@, final(self)@) == remove_next(old(self)@, ev@),
            final(self).wf(),
    {
        proof {
            lemma_remove_wf_next(self@, ev@);
        }
        let found = match ev {
            Event::Located(b) => b,
            _ => false,
        };
        if !found {
            self.stage = RemoveStage::Over;
            let mut m = String::from_str("Command not found: ");
            m.append("pacman");
            return (Vec::new(), finish_err(m));
        }
        match validate_packages(&self.pkgs) {
            Err(m) => {
                proof {
                    let ps = self@.pkgs;
                    let k1 = choose|k: int|
                        0 <= k < ps.len() && !is_valid_pkg(#[trigger] ps[k]) && (forall|i: int|
                            0 <= i < k ==> is_valid_pkg(#[trigger] ps[i])) && m@ == invalid_name_message(
                            ps[k],
                        );
                    let k2 = first_invalid(ps);
                    assert(0 <= k2 < ps.len() && !is_valid_pkg(ps[k2]) && (forall|i: int|
                        0 <= i < k2 ==> is_valid_pkg(#[trigger] ps[i])));
                    if k1 < k2 {
                        assert(is_valid_pkg(ps[k1]));
                    }
                    if k2 < k1 {
                        assert(is_valid_pkg(ps[k2]));
                    }
                }
                self.stage = RemoveStage::Over;
                (Vec::new(), finish_err(m))
            },
            Ok(()) => {
                let mut eff: Vec<Effect> = Vec::new();
                push_effect(&mut eff, Effect::Log(remove_request_message(&self.pkgs)));
                let (more, req) = self.query_from(0);
                append_effects(&mut eff, more);
                (eff, req)
            },
        }
    }

    fn on_installed(&mut self, i: usize, ev: Event) -> (r: (Vec<Effect>, Request))
        requires
            old(self).wf(),
            old(self)@.stage == RemoveStage::Installed(i),
            remove_expects(old(self)@.stage, ev@),
        ensures
            (effect_views(r.0@), r.1@, final(self)@) == remove_next(old(self)@, ev@),
            final(self).wf(),
    {
        let b = match ev {
            Event::Status(b) => b,
            _ => false,
        };
        self.installed.push(b);
        self.query_from(i + 1)
    }

    fn on_simulated(&mut self, ev: Event) -> (r: (Vec<Effect>, Request))
        requires
            old(self).wf(),
            old(self)@.stage == RemoveStage::Simulated,
            remove_expects(old(self)@.stage, ev@),
            capture_fits(ev@),
        ensures
            (effect_views(r.0@), r.1@, final(self)@) == remove_next(old(self)@, ev@),
            final(self).wf(),
    {
        proof {
            lemma_remove_wf_next(self@, ev@);
        }
        let t = match ev {
            Event::Captured(c) => read_simulation(&c),
            _ => None,
        };
        match t {
            Some(rows) => {
                let txn = Some(rows);
                let eff = remove_plan(&self.split, &txn, &Vec::new());
                proof {
                    assert(sizes_view(Seq::<Option<String>>::empty()) =~= Seq::<Option<Seq<char>>>::empty());
                }
                self.stage = RemoveStage::Over;
                (eff, finish_ok())
            },
            None => {
                self.sizes = Vec::new();
                assert(self@.sizes =~= Seq::<Option<Seq<char>>>::empty());
                self.size_from(0)
            },
        }
    }

    fn on_sized(&mut self, i: usize, ev: Event) -> (r: (Vec<Effect>, Request))
        requires
            old(self).wf(),
            old(self)@.stage == RemoveStage::Sized(i),
            remove_expects(old(self)@.stage, ev@),
        ensures
            (effect_views(r.0@), r.1@, final(self)@) == remove_next(old(self)@, ev@),
            final(self).wf(),
    {
        proof {
            lemma_remove_wf_next(self@, ev@);
            crate::install::lemma_pick_len(self@.pkgs, |k: int| self@.installed[k]);
        }
        let size = match ev {
            Event::Captured(Some((_, text))) => installed_size(text.as_str()),
            _ => None,
        };
        let ghost before = sizes_view(self.sizes@);
        let ghost sv = crate::flow::opt_str(size);
        self.sizes.push(size);
        assert(sizes_view(self.sizes@) =~= before.push(sv));
        self.size_from(i + 1)
    }

    fn on_confirming(&mut self, ev: Event) -> (r: (Vec<Effect>, Request))
        requires
            old(self).wf(),
            old(self)@.stage == RemoveStage::Confirming,
            remove_expects(old(self)@.stage, ev@),
        ensures
            (effect_views(r.0@), r.1@, final(self)@) == remove_next(old(self)@, ev@),
            final(self).wf(),
    {
        match ev {
            Event::Answer(Err(m)) => {
                self.stage = RemoveStage::Over;
                (Vec::new(), finish_err(m))
            },
            Event::Answer(Ok(line)) => {
                if is_yes(line.as_str()) {
                    self.start(Vec::new())
                } else {
                    let eff = remove_cancelled(&self.pkgs, &self.split);
                    self.stage = RemoveStage::Over;
                    (eff, finish_ok())
                }
            },
            _ => {
                self.stage = RemoveStage::Over;
                (Vec::new(), finish_ok())
            },
        }
    }

    fn on_removed(&mut self, ev: Event) -> (r: (Vec<Effect>, Request))
        requires
            old(self).wf(),
            old(self)@.stage == RemoveStage::Removed,
            remove_expects(old(self)@.stage, ev@),
        ensures
            (effect_views(r.0@), r.1@, final(self)@) == remove_next(old(self)@, ev@),
            final(self).wf(),
    {
        match ev {
            Event::Ran(Err(m)) => {
                self.stage = RemoveStage::Over;
                (Vec::new(), finish_err(m))
            },
            Event::Ran(Ok(ok)) => {
                let (eff, res) = remove_result(&self.split, ok);
                self.stage = RemoveStage::Over;
                (eff, Request::Finish(res))
            },
            _ => {
                self.stage = RemoveStage::Over;
                (Vec::new(), finish_ok())
            },
        }
    }

    fn start(&mut self, prefix: Vec<Effect>) -> (r: (Vec<Effect>, Request))
        requires
            old(self).split_ok(),
            old(self)@.pkgs.len() <= usize::MAX,
            old(self)@.installed.len() == old(self)@.pkgs.len(),
            !old(self).plan,
            !old(self).dry_run,
        ensures
            (effect_views(r.0@), r.1@, final(self)@) == start_removal(old(self)@, effect_views(prefix@)),
            final(self).wf(),
    {
        let mut eff = prefix;
        append_effects(&mut eff, remove_start(&self.split));
        let args = remove_args(&self.split.targets, self.yes);
        self.stage = RemoveStage::Removed;
        (eff, Request::Execute(String::from_str("pacman"), args, true, None, true))
    }

    fn size_from(&mut self, i: usize) -> (r: (Vec<Effect>, Request))
        requires
            old(self).split_ok(),
            old(self)@.pkgs.len() <= usize::MAX,
            old(self)@.installed.len() == old(self)@.pkgs.len(),
            old(self).plan,
            old(self)@.sizes.len() == i,
            i <= targets_of(old(self)@).len(),
        ensures
            (effect_views(r.0@), r.1@, final(self)@) == size_from(old(self)@, i as nat),
            final(self).wf(),
    {
        proof {
            lemma_size_from_wf(self@, i as nat);
        }
        if i < self.split.targets.len() {
            let mut args: Vec<String> = Vec::new();
            crate::report::push_string(&mut args, String::from_str("-Qi"));
            crate::report::push_string(&mut args, String::from_str(self.split.targets[i].as_str()));
            assert(views(args@) =~= seq!["-Qi"@, targets_of(self@)[i as int]]);
            self.stage = RemoveStage::Sized(i);
            (Vec::new(), Request::Capture(String::from_str("pacman"), args))
        } else {
            let eff = remove_plan(&self.split, &None, &self.sizes);
            self.stage = RemoveStage::Over;
            (eff, finish_ok())
        }
    }

    fn decide(&mut self) -> (r: (Vec<Effect>, Request))
        requires
            old(self)@.pkgs.len() <= usize::MAX,
            old(self)@.installed.len() == old(self)@.pkgs.len(),
        ensures
            (effect_views(r.0@), r.1@, final(self)@) == remove_decide(old(self)@),
            final(self).wf(),
    {
        proof {
            lemma_remove_decide_wf(self@);
        }
        self.split = classify_remove(&self.pkgs, &self.installed);
        if self.plan {
            if self.split.targets.len() > 0 {
                match simulation_args(true, &self.split.targets) {
                    Some(a) => {
                        self.stage = RemoveStage::Simulated;
                        (Vec::new(), Request::Capture(String::from_str("pacman"), a))
                    },
                    None => {
                        self.stage = RemoveStage::Over;
                        (Vec::new(), finish_ok())
                    },
                }
            } else {
                let eff = remove_plan(&self.split, &None, &Vec::new());
                proof {
                    assert(sizes_view(Seq::<Option<String>>::empty()) =~= Seq::<Option<Seq<char>>>::empty());
                }
                self.stage = RemoveStage::Over;
                (eff, finish_ok())
            }
        } else if self.dry_run {
            let eff = remove_dry_run(&self.split);
            self.stage = RemoveStage::Over;
            (eff, finish_ok())
        } else {
            let (outline, go_on) = remove_outline(&self.split);
            if !go_on {
                self.stage = RemoveStage::Over;
                (outline, finish_ok())
            } else if self.yes {
                self.start(outline)
            } else {
                self.stage = RemoveStage::Confirming;
                (
                    outline,
                    Request::Confirm(confirm_prompt(remove_prompt())),
                )
            }
        }
    }

    fn query_from(&mut self, j: usize) -> (r: (Vec<Effect>, Request))
        requires
            old(self)@.pkgs.len() <= usize::MAX,
            old(self)@.installed.len() == j,
            j <= old(self)@.pkgs.len(),
        ensures
            (effect_views(r.0@), r.1@, final(self)@) == remove_query_from(old(self)@, j as nat),
            final(self).wf(),
    {
        proof {
            lemma_remove_query_from_wf(self@, j as nat);
        }
        if j < self.pkgs.len() {
            let mut args: Vec<String> = Vec::new();
            crate::report::push_string(&mut args, String::from_str("-Qi"));
            crate::report::push_string(&mut args, String::from_str(self.pkgs[j].as_str()));
            assert(views(args@) =~= seq!["-Qi"@, self@.pkgs[j as int]]);
            self.stage = RemoveStage::Installed(j);
            (Vec::new(), Request::Query(args))
        } else {
            self.decide()
        }
    }
}

} // verus!
