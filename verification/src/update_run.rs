//! The course of `atha update`: which outside work comes next, given what
//! the previous work gave back.
//!
//! The run counts the packages from outside the sync databases; in plan and
//! dry-run modes it lists the pending updates and shows the command that
//! would run; in a real run it upgrades the system in one pacman run.

use vstd::prelude::*;
use crate::text::{trim_end, views};
use crate::paths::command_not_found;
use crate::pacman::{
    count_nonblank_lines, nonblank_count, pending_updates, update_args, with_noconfirm,
};
use crate::update::{
    pending_query, preview_open, preview_open_spec, update_preview, update_preview_spec,
    update_result, update_result_spec, update_start, update_start_spec,
};
use crate::report::{append_effects, effect_views, Effect, EffectV, Tone};
use crate::flow::{changes_system, finish_err, finish_ok, Event, EventV, Request, RequestV};

verus! {

/// Where an upgrade run stands: what outside work it waits for.
#[derive(Clone, Copy, PartialEq, Eq, Structural, Debug)]
pub enum UpdateStage {
    /// Not started.
    Begin,
    /// Waits to know whether pacman is installed.
    PacmanLocated,
    /// Waits for the list of packages from outside the sync databases.
    Foreign,
    /// Plan and dry-run modes: waits to know whether `checkupdates` is installed.
    CheckupdatesLocated,
    /// Plan and dry-run modes: waits for the list of pending updates.
    Pending,
    /// Waits for the pacman run that upgrades the system.
    Upgraded,
    /// Finished.
    Over,
}

/// The abstract state of an upgrade run.
pub struct UpdateView {
    pub plan: bool,
    pub dry_run: bool,
    pub yes: bool,
    pub nonroot: bool,
    pub stage: UpdateStage,
}

/// The event that answers the work a stage waits for.
pub open spec fn update_expects(stage: UpdateStage, e: EventV) -> bool {
    match stage {
        UpdateStage::Begin => e is Start,
        UpdateStage::PacmanLocated => e is Located,
        UpdateStage::Foreign => e is Captured,
        UpdateStage::CheckupdatesLocated => e is Located,
        UpdateStage::Pending => e is Captured,
        UpdateStage::Upgraded => e is Ran,
        UpdateStage::Over => false,
    }
}

/// The consistent states of an upgrade run.
pub open spec fn update_wf(v: UpdateView) -> bool {
    &&& (v.stage == UpdateStage::CheckupdatesLocated || v.stage == UpdateStage::Pending) ==> (v.plan
        || v.dry_run)
    &&& v.stage == UpdateStage::Upgraded ==> !v.plan && !v.dry_run
}

/// The state with another stage.
pub open spec fn at(v: UpdateView, stage: UpdateStage) -> UpdateView {
    UpdateView { stage, ..v }
}

/// The standard output of a captured run, or nothing.
pub open spec fn captured_text(c: Option<(bool, Seq<char>)>) -> Seq<char> {
    match c {
        Some((_, t)) => t,
        None => Seq::empty(),
    }
}

/// The transcript of an upgrade run: given the state and the outcome of the
/// work it waited for, what is shown, logged and recorded, what is asked
/// for next, and the new state.
pub open spec fn update_next(v: UpdateView, e: EventV) -> (Seq<EffectV>, RequestV, UpdateView) {
    match (v.stage, e) {
        (UpdateStage::Begin, EventV::Start) => (
            Seq::empty(),
            RequestV::Locate("pacman"@),
            at(v, UpdateStage::PacmanLocated),
        ),
        (UpdateStage::PacmanLocated, EventV::Located(found)) => if found {
            (Seq::empty(), RequestV::Capture("pacman"@, seq!["-Qm"@]), at(v, UpdateStage::Foreign))
        } else {
            (
                Seq::empty(),
                RequestV::Finish(Err(command_not_found("pacman"@))),
                at(v, UpdateStage::Over),
            )
        },
        (UpdateStage::Foreign, EventV::Captured(c)) => {
            let n = match c {
                Some((_, t)) => nonblank_count(t),
                None => 0,
            };
            if v.plan || v.dry_run {
                (
                    update_start_spec(n) + preview_open_spec(v.plan),
                    RequestV::Locate("checkupdates"@),
                    at(v, UpdateStage::CheckupdatesLocated),
                )
            } else {
                (
                    update_start_spec(n),
                    RequestV::Execute("pacman"@, with_noconfirm(seq!["-Syu"@], v.yes), true, None, true),
                    at(v, UpdateStage::Upgraded),
                )
            }
        },
        (UpdateStage::CheckupdatesLocated, EventV::Located(found)) => if found {
            (Seq::empty(), RequestV::Capture("checkupdates"@, Seq::empty()), at(v, UpdateStage::Pending))
        } else {
            (
                seq![
                    EffectV::Show(
                        Tone::Warn,
                        "'checkupdates' not found (install pacman-contrib). Falling back to local db check (pacman -Qu)."@,
                    ),
                ],
                RequestV::Capture("pacman"@, seq!["-Qu"@]),
                at(v, UpdateStage::Pending),
            )
        },
        (UpdateStage::Pending, EventV::Captured(c)) => {
            let out = trim_end(captured_text(c));
            (
                update_preview_spec(v.plan, v.yes, v.nonroot, out, nonblank_count(out)),
                RequestV::Finish(Ok(())),
                at(v, UpdateStage::Over),
            )
        },
        (UpdateStage::Upgraded, EventV::Ran(r)) => match r {
            Err(m) => (Seq::empty(), RequestV::Finish(Err(m)), at(v, UpdateStage::Over)),
            Ok(ok) => (
                update_result_spec(ok),
                RequestV::Finish(
                    if ok {
                        Ok(())
                    } else {
                        Err("System update failed"@)
                    },
                ),
                at(v, UpdateStage::Over),
            ),
        },
        _ => (Seq::empty(), RequestV::Finish(Ok(())), at(v, UpdateStage::Over)),
    }
}

/// Plan and dry-run upgrades change nothing: in those modes no step of the
/// run asks for a package operation, whatever the outcome of the work
/// before.
pub proof fn law_update_preview_changes_nothing(v: UpdateView, e: EventV)
    requires
        update_wf(v),
        v.plan || v.dry_run,
    ensures
        !changes_system(update_next(v, e).1),
        update_next(v, e).2.plan == v.plan,
        update_next(v, e).2.dry_run == v.dry_run,
{
}

/// Every step keeps an upgrade run consistent.
pub proof fn lemma_update_wf_next(v: UpdateView, e: EventV)
    requires
        update_wf(v),
    ensures
        update_wf(update_next(v, e).2),
{
}

/// An upgrade run in progress.
pub struct UpdateRun {
    plan: bool,
    dry_run: bool,
    yes: bool,
    nonroot: bool,
    stage: UpdateStage,
}

impl View for UpdateRun {
    type V = UpdateView;

    closed spec fn view(&self) -> UpdateView {
        UpdateView {
            plan: self.plan,
            dry_run: self.dry_run,
            yes: self.yes,
            nonroot: self.nonroot,
            stage: self.stage,
        }
    }
}

impl UpdateRun {
    /// The run is consistent.
    pub closed spec fn wf(&self) -> bool {
        update_wf(self@)
    }

    /// An upgrade in plan mode, dry-run mode or for real, assuming yes to
    /// every question when `yes` is set; `nonroot` tells whether the user is
    /// not root (and root rights come through `sudo`).
    pub fn new(plan: bool, dry_run: bool, yes: bool, nonroot: bool) -> (r: Self)
        ensures
            r.wf(),
            r@ == (UpdateView { plan, dry_run, yes, nonroot, stage: UpdateStage::Begin }),
    {
        UpdateRun { plan, dry_run, yes, nonroot, stage: UpdateStage::Begin }
    }

    /// Where the run stands.
    pub fn stage(&self) -> (s: UpdateStage)
        ensures
            s == self@.stage,
    {
        self.stage
    }

    /// Whether `ev` answers the work the run waits for.
    pub fn accepts(&self, ev: &Event) -> (b: bool)
        ensures
            b == update_expects(self@.stage, ev@),
    {
        match (self.stage, ev) {
            (UpdateStage::Begin, Event::Start) => true,
            (UpdateStage::PacmanLocated, Event::Located(_)) => true,
            (UpdateStage::Foreign, Event::Captured(_)) => true,
            (UpdateStage::CheckupdatesLocated, Event::Located(_)) => true,
            (UpdateStage::Pending, Event::Captured(_)) => true,
            (UpdateStage::Upgraded, Event::Ran(_)) => true,
            _ => false,
        }
    }

    /// Gives the outcome of the work the run waited for, and gets back what to
    /// show, log and record, and the next work to do (see [`update_next`]).
    pub fn step(&mut self, ev: Event) -> (r: (Vec<Effect>, Request))
        requires
            old(self).wf(),
            update_expects(old(self)@.stage, ev@),
        ensures
            (effect_views(r.0@), r.1@, final(self)@) == update_next(old(self)@, ev@),
            final(self).wf(),
    {
        match self.stage {
            UpdateStage::Begin => {
                self.stage = UpdateStage::PacmanLocated;
                (Vec::new(), Request::Locate(String::from_str("pacman")))
            },
            UpdateStage::PacmanLocated => {
                let found = match ev {
                    Event::Located(b) => b,
                    _ => false,
                };
                if found {
                    let mut args: Vec<String> = Vec::new();
                    crate::report::push_string(&mut args, String::from_str("-Qm"));
                    assert(views(args@) =~= seq!["-Qm"@]);
                    self.stage = UpdateStage::Foreign;
                    (Vec::new(), Request::Capture(String::from_str("pacman"), args))
                } else {
                    let mut m = String::from_str("Command not found: ");
                    m.append("pacman");
                    self.stage = UpdateStage::Over;
                    (Vec::new(), finish_err(m))
                }
            },
            UpdateStage::Foreign => {
                let n = match ev {
                    Event::Captured(Some((_, text))) => count_nonblank_lines(text.as_str()),
                    _ => 0,
                };
                let mut eff = update_start(n);
                if self.plan || self.dry_run {
                    append_effects(&mut eff, preview_open(self.plan));
                    self.stage = UpdateStage::CheckupdatesLocated;
                    (eff, Request::Locate(String::from_str("checkupdates")))
                } else {
                    let args = update_args(self.yes);
                    self.stage = UpdateStage::Upgraded;
                    (eff, Request::Execute(String::from_str("pacman"), args, true, None, true))
                }
            },
            UpdateStage::CheckupdatesLocated => {
                let found = match ev {
                    Event::Located(b) => b,
                    _ => false,
                };
                let (program, args, warn) = pending_query(found);
                proof {
                    if found {
                        assert(views(args@) =~= Seq::<Seq<char>>::empty());
                        assert(effect_views(warn@) =~= Seq::<EffectV>::empty());
                    }
                }
                self.stage = UpdateStage::Pending;
                (warn, Request::Capture(program, args))
            },
            UpdateStage::Pending => {
                let (out, count) = match ev {
                    Event::Captured(Some((_, text))) => pending_updates(text.as_str()),
                    _ => pending_updates(""),
                };
                proof {
                    reveal_strlit("");
                }
                let eff = update_preview(self.plan, self.yes, self.nonroot, out.as_str(), count);
                self.stage = UpdateStage::Over;
                (eff, finish_ok())
            },
            UpdateStage::Upgraded => {
                match ev {
                    Event::Ran(Err(m)) => {
                        self.stage = UpdateStage::Over;
                        (Vec::new(), finish_err(m))
                    },
                    Event::Ran(Ok(ok)) => {
                        let (eff, res) = update_result(ok);
                        self.stage = UpdateStage::Over;
                        (eff, Request::Finish(res))
                    },
                    _ => {
                        self.stage = UpdateStage::Over;
                        (Vec::new(), finish_ok())
                    },
                }
            },
            UpdateStage::Over => (Vec::new(), finish_ok()),
        }
    }
}

} // verus!
