//! The course of `atha info` and `atha search`: which lookup comes next,
//! given what the previous one gave back.
//!
//! Information comes from the sync databases, else from the local database,
//! else from the AUR; a search asks the sync databases and turns to the AUR
//! only when they have nothing to show.

use vstd::prelude::*;
use crate::names::{invalid_name_message, is_valid_pkg};
use crate::paths::{aur_info_url, aur_search_url, command_not_found};
use crate::lookup::{
    empty_term_message, info_aur_outcome, info_aur_spec, info_check, local_info_warning, log_about,
    search_aur_outcome, search_aur_spec, search_start,
};
use crate::report::{effect_views, Effect, EffectV, Tone};
use crate::flow::{finish_err, finish_ok, Event, EventV, Request, RequestV};

verus! {

// ---------------------------------------------------------------------------
// Information
// ---------------------------------------------------------------------------

/// Where an information lookup stands: what outside work it waits for.
#[derive(Clone, Copy, PartialEq, Eq, Structural, Debug)]
pub enum InfoStage {
    /// Not started.
    Begin,
    /// Waits to know whether pacman is installed.
    PacmanLocated,
    /// Waits for `pacman -Si`.
    Official,
    /// Waits for the output of `pacman -Si` to be shown.
    OfficialShown,
    /// Waits for `pacman -Qi`.
    Local,
    /// Waits for the output of `pacman -Qi` to be shown.
    LocalShown,
    /// Waits for the AUR information service.
    Aur,
    /// Finished.
    Over,
}

/// The abstract state of an information lookup.
pub struct InfoView {
    pub pkg: Seq<char>,
    pub stage: InfoStage,
}

/// The event that answers the work a stage waits for.
pub open spec fn info_expects(stage: InfoStage, e: EventV) -> bool {
    match stage {
        InfoStage::Begin => e is Start,
        InfoStage::PacmanLocated => e is Located,
        InfoStage::Official => e is Inspected,
        InfoStage::OfficialShown => e is Ack,
        InfoStage::Local => e is Inspected,
        InfoStage::LocalShown => e is Ack,
        InfoStage::Aur => e is InfoReply,
        InfoStage::Over => false,
    }
}

/// The message of a lookup that found nothing.
pub open spec fn info_not_found(pkg: Seq<char>) -> Seq<char> {
    "Package not found in official repositories, local DB, or AUR: "@ + pkg
}

/// The transcript of an information lookup: the name is checked first, then
/// pacman is required; `pacman -Si` is shown when it succeeds, else `pacman
/// -Qi` (after a warning) when that succeeds, else the AUR answer decides.
pub open spec fn info_next(v: InfoView, e: EventV) -> (Seq<EffectV>, RequestV, InfoView) {
    let over = InfoView { stage: InfoStage::Over, ..v };
    match (v.stage, e) {
        (InfoStage::Begin, EventV::Start) => if is_valid_pkg(v.pkg) {
            (Seq::empty(), RequestV::Locate("pacman"@), InfoView { stage: InfoStage::PacmanLocated, ..v })
        } else {
            (Seq::empty(), RequestV::Finish(Err(invalid_name_message(v.pkg))), over)
        },
        (InfoStage::PacmanLocated, EventV::Located(found)) => if found {
            (
                seq![EffectV::Log("Info requested for package: "@ + v.pkg)],
                RequestV::Inspect("pacman"@, seq!["-Si"@, v.pkg]),
                InfoView { stage: InfoStage::Official, ..v },
            )
        } else {
            (Seq::empty(), RequestV::Finish(Err(command_not_found("pacman"@))), over)
        },
        (InfoStage::Official, EventV::Inspected(r)) => match r {
            Err(m) => (Seq::empty(), RequestV::Finish(Err(m)), over),
            Ok((ok, _)) => if ok {
                (Seq::empty(), RequestV::ShowOutput, InfoView { stage: InfoStage::OfficialShown, ..v })
            } else {
                (
                    Seq::empty(),
                    RequestV::Inspect("pacman"@, seq!["-Qi"@, v.pkg]),
                    InfoView { stage: InfoStage::Local, ..v },
                )
            },
        },
        (InfoStage::OfficialShown, EventV::Ack) => (
            seq![EffectV::Log("Info success for official package: "@ + v.pkg)],
            RequestV::Finish(Ok(())),
            over,
        ),
        (InfoStage::Local, EventV::Inspected(r)) => match r {
            Err(m) => (Seq::empty(), RequestV::Finish(Err(m)), over),
            Ok((ok, _)) => if ok {
                (
                    seq![
                        EffectV::Show(
                            Tone::Warn,
                            "Package not found in sync database, showing installed local info:"@,
                        ),
                    ],
                    RequestV::ShowOutput,
                    InfoView { stage: InfoStage::LocalShown, ..v },
                )
            } else {
                (
                    Seq::empty(),
                    RequestV::FetchInfo("https://aur.archlinux.org/rpc/v5/info/"@ + v.pkg),
                    InfoView { stage: InfoStage::Aur, ..v },
                )
            },
        },
        (InfoStage::LocalShown, EventV::Ack) => (
            seq![EffectV::Log("Info success for local package: "@ + v.pkg)],
            RequestV::Finish(Ok(())),
            over,
        ),
        (InfoStage::Aur, EventV::InfoReply(r)) => match r {
            Err(m) => (Seq::empty(), RequestV::Finish(Err(m)), over),
            Ok(d) => (
                info_aur_spec(v.pkg, d.0, d.1),
                RequestV::Finish(
                    if d.0 == Some(1u64) {
                        Ok(())
                    } else {
                        Err(info_not_found(v.pkg))
                    },
                ),
                over,
            ),
        },
        _ => (Seq::empty(), RequestV::Finish(Ok(())), over),
    }
}

/// The AUR is asked only after both pacman lookups came back without the
/// package, and the local database only after the sync databases.
pub proof fn law_info_asks_the_aur_last(v: InfoView, e: EventV)
    ensures
        info_next(v, e).1 is FetchInfo ==> (v.stage == InfoStage::Local && (e matches EventV::Inspected(
            Ok((ok, _)),
        ) && !ok)),
        info_next(v, e).2.stage == InfoStage::Local ==> (v.stage == InfoStage::Official && (e matches EventV::Inspected(
            Ok((ok, _)),
        ) && !ok)),
{
}

/// An information lookup in progress.
pub struct InfoRun {
    pkg: String,
    stage: InfoStage,
}

impl View for InfoRun {
    type V = InfoView;

    closed spec fn view(&self) -> InfoView {
        InfoView { pkg: self.pkg@, stage: self.stage }
    }
}

impl InfoRun {
    /// A lookup of the information about `pkg`.
    pub fn new(pkg: String) -> (r: Self)
        ensures
            r@ == (InfoView { pkg: pkg@, stage: InfoStage::Begin }),
    {
        InfoRun { pkg, stage: InfoStage::Begin }
    }

    /// Where the lookup stands.
    pub fn stage(&self) -> (s: InfoStage)
        ensures
            s == self@.stage,
    {
        self.stage
    }

    /// Whether `ev` answers the work the lookup waits for.
    pub fn accepts(&self, ev: &Event) -> (b: bool)
        ensures
            b == info_expects(self@.stage, ev@),
    {
        match (self.stage, ev) {
            (InfoStage::Begin, Event::Start) => true,
            (InfoStage::PacmanLocated, Event::Located(_)) => true,
            (InfoStage::Official, Event::Inspected(_)) => true,
            (InfoStage::OfficialShown, Event::Ack) => true,
            (InfoStage::Local, Event::Inspected(_)) => true,
            (InfoStage::LocalShown, Event::Ack) => true,
            (InfoStage::Aur, Event::InfoReply(_)) => true,
            _ => false,
        }
    }

    /// Gives the outcome of the work the lookup waited for, and gets back
    /// what to show and log, and the next work to do (see [`info_next`]).
    pub fn step(&mut self, ev: Event) -> (r: (Vec<Effect>, Request))
        requires
            info_expects(old(self)@.stage, ev@),
        ensures
            (effect_views(r.0@), r.1@, final(self)@) == info_next(old(self)@, ev@),
    {
        let stage = self.stage;
        self.stage = InfoStage::Over;
        match (stage, ev) {
            (InfoStage::Begin, _) => match info_check(self.pkg.as_str()) {
                Ok(()) => {
                    self.stage = InfoStage::PacmanLocated;
                    (Vec::new(), Request::Locate(String::from_str("pacman")))
                },
                Err(m) => (Vec::new(), finish_err(m)),
            },
            (InfoStage::PacmanLocated, Event::Located(found)) => if found {
                let eff = vec![log_about("Info requested for package: ", self.pkg.as_str())];
                let args = vec![String::from_str("-Si"), String::from_str(self.pkg.as_str())];
                self.stage = InfoStage::Official;
                proof {
                    assert(effect_views(eff@) =~= seq![EffectV::Log("Info requested for package: "@ + self.pkg@)]);
                    assert(crate::text::views(args@) =~= seq!["-Si"@, self.pkg@]);
                }
                (eff, Request::Inspect(String::from_str("pacman"), args))
            } else {
                (Vec::new(), finish_err(not_found_pacman()))
            },
            (InfoStage::Official, Event::Inspected(r)) => match r {
                Err(m) => (Vec::new(), finish_err(m)),
                Ok((ok, _)) => if ok {
                    self.stage = InfoStage::OfficialShown;
                    (Vec::new(), Request::ShowOutput)
                } else {
                    let args = vec![String::from_str("-Qi"), String::from_str(self.pkg.as_str())];
                    self.stage = InfoStage::Local;
                    proof {
                        assert(crate::text::views(args@) =~= seq!["-Qi"@, self.pkg@]);
                    }
                    (Vec::new(), Request::Inspect(String::from_str("pacman"), args))
                },
            },
            (InfoStage::OfficialShown, _) => {
                let eff = vec![log_about("Info success for official package: ", self.pkg.as_str())];
                proof {
                    assert(effect_views(eff@) =~= seq![EffectV::Log("Info success for official package: "@ + self.pkg@)]);
                }
                (eff, finish_ok())
            },
            (InfoStage::Local, Event::Inspected(r)) => match r {
                Err(m) => (Vec::new(), finish_err(m)),
                Ok((ok, _)) => if ok {
                    let eff = vec![local_info_warning()];
                    self.stage = InfoStage::LocalShown;
                    proof {
                        assert(effect_views(eff@) =~= seq![
                            EffectV::Show(
                                Tone::Warn,
                                "Package not found in sync database, showing installed local info:"@,
                            ),
                        ]);
                    }
                    (eff, Request::ShowOutput)
                } else {
                    self.stage = InfoStage::Aur;
                    (Vec::new(), Request::FetchInfo(aur_info_url(self.pkg.as_str())))
                },
            },
            (InfoStage::LocalShown, _) => {
                let eff = vec![log_about("Info success for local package: ", self.pkg.as_str())];
                proof {
                    assert(effect_views(eff@) =~= seq![EffectV::Log("Info success for local package: "@ + self.pkg@)]);
                }
                (eff, finish_ok())
            },
            (InfoStage::Aur, Event::InfoReply(r)) => match r {
                Err(m) => (Vec::new(), finish_err(m)),
                Ok(d) => {
                    let (eff, res) = info_aur_outcome(self.pkg.as_str(), &d);
                    (eff, Request::Finish(res))
                },
            },
            _ => (Vec::new(), finish_ok()),
        }
    }
}

/// `Command not found: pacman`.
fn not_found_pacman() -> (m: String)
    ensures
        m@ == command_not_found("pacman"@),
{
    let mut m = String::from_str("Command not found: ");
    m.append("pacman");
    m
}

// ---------------------------------------------------------------------------
// Search
// ---------------------------------------------------------------------------

/// Where a search stands: what outside work it waits for.
#[derive(Clone, Copy, PartialEq, Eq, Structural, Debug)]
pub enum SearchStage {
    /// Not started.
    Begin,
    /// Waits to know whether pacman is installed.
    PacmanLocated,
    /// Waits for `pacman -Ss`.
    Official,
    /// Waits for the output of `pacman -Ss` to be shown.
    OfficialShown,
    /// Waits for the AUR search service.
    Aur,
    /// Finished.
    Over,
}

/// The abstract state of a search.
pub struct SearchView {
    pub term: Seq<char>,
    pub stage: SearchStage,
}

/// The event that answers the work a stage waits for.
pub open spec fn search_expects(stage: SearchStage, e: EventV) -> bool {
    match stage {
        SearchStage::Begin => e is Start,
        SearchStage::PacmanLocated => e is Located,
        SearchStage::Official => e is Inspected,
        SearchStage::OfficialShown => e is Ack,
        SearchStage::Aur => e is SearchReply,
        SearchStage::Over => false,
    }
}

/// The transcript of a search: pacman is required and the term must not be
/// empty; the sync databases answer when `pacman -Ss` succeeds and prints
/// something, and otherwise the AUR answer decides.
pub open spec fn search_next(v: SearchView, e: EventV) -> (Seq<EffectV>, RequestV, SearchView) {
    let over = SearchView { stage: SearchStage::Over, ..v };
    match (v.stage, e) {
        (SearchStage::Begin, EventV::Start) => (
            Seq::empty(),
            RequestV::Locate("pacman"@),
            SearchView { stage: SearchStage::PacmanLocated, ..v },
        ),
        (SearchStage::PacmanLocated, EventV::Located(found)) => if !found {
            (Seq::empty(), RequestV::Finish(Err(command_not_found("pacman"@))), over)
        } else if v.term.len() == 0 {
            (Seq::empty(), RequestV::Finish(Err(empty_term_message())), over)
        } else {
            (
                seq![EffectV::Log("Search requested with term: "@ + v.term)],
                RequestV::Inspect("pacman"@, seq!["-Ss"@, v.term]),
                SearchView { stage: SearchStage::Official, ..v },
            )
        },
        (SearchStage::Official, EventV::Inspected(r)) => match r {
            Err(m) => (Seq::empty(), RequestV::Finish(Err(m)), over),
            Ok((ok, printed)) => if ok && printed {
                (Seq::empty(), RequestV::ShowOutput, SearchView { stage: SearchStage::OfficialShown, ..v })
            } else {
                (
                    Seq::empty(),
                    RequestV::FetchSearch("https://aur.archlinux.org/rpc/v5/search/"@ + v.term),
                    SearchView { stage: SearchStage::Aur, ..v },
                )
            },
        },
        (SearchStage::OfficialShown, EventV::Ack) => (
            seq![EffectV::Log("Search success in official repo for term: "@ + v.term)],
            RequestV::Finish(Ok(())),
            over,
        ),
        (SearchStage::Aur, EventV::SearchReply(r)) => match r {
            Err(m) => (Seq::empty(), RequestV::Finish(Err(m)), over),
            Ok(d) => (
                search_aur_spec(v.term, d.0, d.1),
                RequestV::Finish(
                    if d.0 > 0 {
                        Ok(())
                    } else {
                        Err("No packages found for: "@ + v.term + " (official or AUR)"@)
                    },
                ),
                over,
            ),
        },
        _ => (Seq::empty(), RequestV::Finish(Ok(())), over),
    }
}

/// A search in progress.
pub struct SearchRun {
    term: String,
    stage: SearchStage,
}

impl View for SearchRun {
    type V = SearchView;

    closed spec fn view(&self) -> SearchView {
        SearchView { term: self.term@, stage: self.stage }
    }
}

impl SearchRun {
    /// A search for `term`.
    pub fn new(term: String) -> (r: Self)
        ensures
            r@ == (SearchView { term: term@, stage: SearchStage::Begin }),
    {
        SearchRun { term, stage: SearchStage::Begin }
    }

    /// Where the search stands.
    pub fn stage(&self) -> (s: SearchStage)
        ensures
            s == self@.stage,
    {
        self.stage
    }

    /// Whether `ev` answers the work the search waits for.
    pub fn accepts(&self, ev: &Event) -> (b: bool)
        ensures
            b == search_expects(self@.stage, ev@),
    {
        match (self.stage, ev) {
            (SearchStage::Begin, Event::Start) => true,
            (SearchStage::PacmanLocated, Event::Located(_)) => true,
            (SearchStage::Official, Event::Inspected(_)) => true,
            (SearchStage::OfficialShown, Event::Ack) => true,
            (SearchStage::Aur, Event::SearchReply(_)) => true,
            _ => false,
        }
    }

    /// Gives the outcome of the work the search waited for, and gets back
    /// what to show and log, and the next work to do (see [`search_next`]).
    pub fn step(&mut self, ev: Event) -> (r: (Vec<Effect>, Request))
        requires
            search_expects(old(self)@.stage, ev@),
        ensures
            (effect_views(r.0@), r.1@, final(self)@) == search_next(old(self)@, ev@),
    {
        let stage = self.stage;
        self.stage = SearchStage::Over;
        match (stage, ev) {
            (SearchStage::Begin, _) => {
                self.stage = SearchStage::PacmanLocated;
                (Vec::new(), Request::Locate(String::from_str("pacman")))
            },
            (SearchStage::PacmanLocated, Event::Located(found)) => if !found {
                (Vec::new(), finish_err(not_found_pacman()))
            } else {
                match search_start(self.term.as_str()) {
                    Err(m) => (Vec::new(), finish_err(m)),
                    Ok(eff) => {
                        let args = vec![String::from_str("-Ss"), String::from_str(self.term.as_str())];
                        self.stage = SearchStage::Official;
                        proof {
                            assert(crate::text::views(args@) =~= seq!["-Ss"@, self.term@]);
                        }
                        (eff, Request::Inspect(String::from_str("pacman"), args))
                    },
                }
            },
            (SearchStage::Official, Event::Inspected(r)) => match r {
                Err(m) => (Vec::new(), finish_err(m)),
                Ok((ok, printed)) => if ok && printed {
                    self.stage = SearchStage::OfficialShown;
                    (Vec::new(), Request::ShowOutput)
                } else {
                    self.stage = SearchStage::Aur;
                    (Vec::new(), Request::FetchSearch(aur_search_url(self.term.as_str())))
                },
            },
            (SearchStage::OfficialShown, _) => {
                let eff = vec![log_about("Search success in official repo for term: ", self.term.as_str())];
                proof {
                    assert(effect_views(eff@) =~= seq![
                        EffectV::Log("Search success in official repo for term: "@ + self.term@),
                    ]);
                }
                (eff, finish_ok())
            },
            (SearchStage::Aur, Event::SearchReply(r)) => match r {
                Err(m) => (Vec::new(), finish_err(m)),
                Ok(d) => {
                    let (eff, res) = search_aur_outcome(self.term.as_str(), &d);
                    (eff, Request::Finish(res))
                },
            },
            _ => (Vec::new(), finish_ok()),
        }
    }
}

} // verus!
