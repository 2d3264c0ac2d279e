//! What the program shows, logs and records, as plain values.
//!
//! The decisions of the library produce sequences of [`Effect`]s; the
//! program around it performs them in order.

use vstd::prelude::*;
use crate::text::views;

verus! {

/// How a line of output is presented.
#[derive(Clone, Copy, PartialEq, Eq, Structural, Debug)]
pub enum Tone {
    /// `[atha] text`, in blue.
    Info,
    /// `[atha] warning: text`, in yellow.
    Warn,
    /// `[atha] text`, in green.
    Success,
    /// A blank line, then `==> text` in blue.
    Section,
    /// The text as it is.
    Plain,
}

/// One line of output.
pub struct Line {
    pub tone: Tone,
    pub text: String,
}

impl View for Line {
    type V = (Tone, Seq<char>);

    open spec fn view(&self) -> (Tone, Seq<char>) {
        (self.tone, self.text@)
    }
}

/// One entry of the history of package operations.
pub struct Record {
    pub action: String,
    pub target: String,
    pub source: String,
    pub status: String,
    pub detail: String,
}

/// The fields of a history entry, in the order they are written.
pub type RecordV = (Seq<char>, Seq<char>, Seq<char>, Seq<char>, Seq<char>);

impl View for Record {
    type V = RecordV;

    open spec fn view(&self) -> RecordV {
        (self.action@, self.target@, self.source@, self.status@, self.detail@)
    }
}

/// Something the program does on behalf of a decision.
pub enum Effect {
    /// Print a line.
    Show(Line),
    /// Append a message to the log file.
    Log(String),
    /// Log the entry and append it to the history file.
    Record(Record),
}

/// The abstract form of an [`Effect`].
pub enum EffectV {
    Show(Tone, Seq<char>),
    Log(Seq<char>),
    Record(RecordV),
}

impl View for Effect {
    type V = EffectV;

    open spec fn view(&self) -> EffectV {
        match self {
            Effect::Show(l) => EffectV::Show(l.tone, l.text@),
            Effect::Log(m) => EffectV::Log(m@),
            Effect::Record(r) => EffectV::Record(r@),
        }
    }
}

/// The views of a sequence of lines.
pub open spec fn line_views(v: Seq<Line>) -> Seq<(Tone, Seq<char>)> {
    v.map_values(|l: Line| l@)
}

/// The views of a sequence of effects.
pub open spec fn effect_views(v: Seq<Effect>) -> Seq<EffectV> {
    v.map_values(|e: Effect| e@)
}

/// A record, as an abstract effect.
pub open spec fn rec(
    action: Seq<char>,
    target: Seq<char>,
    source: Seq<char>,
    status: Seq<char>,
    detail: Seq<char>,
) -> EffectV {
    EffectV::Record((action, target, source, status, detail))
}

/// `text` wrapped in the terminal colour `code`, unless colour is off.
pub open spec fn colored(code: Seq<char>, text: Seq<char>, no_color: bool) -> Seq<char> {
    if no_color {
        text
    } else {
        "\x1b["@ + code + "m"@ + text + "\x1b[0m"@
    }
}

/// The text printed for a line.
pub open spec fn rendered(tone: Tone, text: Seq<char>, no_color: bool) -> Seq<char> {
    match tone {
        Tone::Info => colored("1;34"@, "[atha] "@ + text, no_color),
        Tone::Warn => colored("1;33"@, "[atha] warning: "@ + text, no_color),
        Tone::Success => colored("1;32"@, "[atha] "@ + text, no_color),
        Tone::Section => "\n"@ + colored("1;34"@, "==> "@ + text, no_color),
        Tone::Plain => text,
    }
}

/// A line with the given tone and text.
pub fn line(tone: Tone, text: String) -> (l: Line)
    ensures
        l@ == (tone, text@),
{
    Line { tone, text }
}

/// An effect that shows a line.
pub fn show(tone: Tone, text: String) -> (e: Effect)
    ensures
        e@ == EffectV::Show(tone, text@),
{
    Effect::Show(Line { tone, text })
}

/// An effect that shows a line built from a string slice.
pub fn show_str(tone: Tone, text: &str) -> (e: Effect)
    ensures
        e@ == EffectV::Show(tone, text@),
{
    Effect::Show(Line { tone, text: String::from_str(text) })
}

/// An effect that records a history entry.
pub fn record(action: &str, target: &str, source: &str, status: &str, detail: &str) -> (e: Effect)
    ensures
        e@ == rec(action@, target@, source@, status@, detail@),
{
    Effect::Record(
        Record {
            action: String::from_str(action),
            target: String::from_str(target),
            source: String::from_str(source),
            status: String::from_str(status),
            detail: String::from_str(detail),
        },
    )
}

/// `text` in the terminal colour `code` (`\x1b[{code}m{text}\x1b[0m`), or
/// `text` alone when colour is off.
pub fn color(code: &str, text: &str, no_color: bool) -> (s: String)
    ensures
        s@ == colored(code@, text@, no_color),
{
    if no_color {
        String::from_str(text)
    } else {
        let mut s = String::from_str("\x1b[");
        s.append(code);
        s.append("m");
        s.append(text);
        s.append("\x1b[0m");
        s
    }
}

/// The text printed for a line: the message prefix and colour of its tone.
pub fn render_line(l: &Line, no_color: bool) -> (s: String)
    ensures
        s@ == rendered(l.tone, l.text@, no_color),
{
    match l.tone {
        Tone::Info => {
            let mut t = String::from_str("[atha] ");
            t.append(l.text.as_str());
            color("1;34", t.as_str(), no_color)
        },
        Tone::Warn => {
            let mut t = String::from_str("[atha] warning: ");
            t.append(l.text.as_str());
            color("1;33", t.as_str(), no_color)
        },
        Tone::Success => {
            let mut t = String::from_str("[atha] ");
            t.append(l.text.as_str());
            color("1;32", t.as_str(), no_color)
        },
        Tone::Section => {
            let mut t = String::from_str("==> ");
            t.append(l.text.as_str());
            let c = color("1;34", t.as_str(), no_color);
            let mut s = String::from_str("\n");
            s.append(c.as_str());
            s
        },
        Tone::Plain => String::from_str(l.text.as_str()),
    }
}

/// Appends `e` to `v`.
pub fn push_effect(v: &mut Vec<Effect>, e: Effect)
    ensures
        effect_views(final(v)@) == effect_views(old(v)@).push(e@),
{
    let ghost e_view = e@;
    v.push(e);
    assert(effect_views(v@) =~= effect_views(old(v)@).push(e_view));
}

/// Appends `l` to `v`.
pub fn push_line(v: &mut Vec<Line>, l: Line)
    ensures
        line_views(final(v)@) == line_views(old(v)@).push(l@),
{
    let ghost l_view = l@;
    v.push(l);
    assert(line_views(v@) =~= line_views(old(v)@).push(l_view));
}

/// The string views of `v` after a push.
pub fn push_string(v: &mut Vec<String>, s: String)
    ensures
        views(final(v)@) == views(old(v)@).push(s@),
{
    let ghost s_view = s@;
    v.push(s);
    assert(views(v@) =~= views(old(v)@).push(s_view));
}

/// Appends all of `more` to `out`.
pub fn append_effects(out: &mut Vec<Effect>, more: Vec<Effect>)
    ensures
        effect_views(final(out)@) == effect_views(old(out)@) + effect_views(more@),
{
    let ghost mv = effect_views(more@);
    let mut more = more;
    out.append(&mut more);
    assert(effect_views(out@) =~= effect_views(old(out)@) + mv);
}

// ---------------------------------------------------------------------------
// Per-package templates
// ---------------------------------------------------------------------------

/// A piece of a message about a package: fixed text, or the package's name.
pub enum Seg {
    Lit(String),
    Pkg,
}

/// The abstract form of a [`Seg`].
pub enum SegV {
    Lit(Seq<char>),
    Pkg,
}

impl View for Seg {
    type V = SegV;

    open spec fn view(&self) -> SegV {
        match self {
            Seg::Lit(s) => SegV::Lit(s@),
            Seg::Pkg => SegV::Pkg,
        }
    }
}

/// What one package's turn does: show or log a message, or record an entry
/// (action, source, status, detail) with the package as target.
pub enum Step {
    Show(Tone, Vec<Seg>),
    Log(Vec<Seg>),
    Record(String, String, String, String),
}

/// The abstract form of a [`Step`].
pub enum StepV {
    Show(Tone, Seq<SegV>),
    Log(Seq<SegV>),
    Record(Seq<char>, Seq<char>, Seq<char>, Seq<char>),
}

/// The views of message pieces.
pub open spec fn segs_view(v: Seq<Seg>) -> Seq<SegV> {
    v.map_values(|s: Seg| s@)
}

impl View for Step {
    type V = StepV;

    open spec fn view(&self) -> StepV {
        match self {
            Step::Show(t, v) => StepV::Show(*t, segs_view(v@)),
            Step::Log(v) => StepV::Log(segs_view(v@)),
            Step::Record(a, s, st, d) => StepV::Record(a@, s@, st@, d@),
        }
    }
}

/// The views of steps.
pub open spec fn steps_view(v: Seq<Step>) -> Seq<StepV> {
    v.map_values(|s: Step| s@)
}

/// The text of one piece for package `p`.
pub open spec fn seg_text(s: SegV, p: Seq<char>) -> Seq<char> {
    match s {
        SegV::Lit(t) => t,
        SegV::Pkg => p,
    }
}

/// The text of a message for package `p`.
pub open spec fn fill(segs: Seq<SegV>, p: Seq<char>) -> Seq<char> {
    segs.map_values(|s: SegV| seg_text(s, p)).flatten_alt()
}

/// The effect of one step for package `p`.
pub open spec fn step_effect(st: StepV, p: Seq<char>) -> EffectV {
    match st {
        StepV::Show(t, segs) => EffectV::Show(t, fill(segs, p)),
        StepV::Log(segs) => EffectV::Log(fill(segs, p)),
        StepV::Record(a, s, status, d) => EffectV::Record((a, p, s, status, d)),
    }
}

/// The effects of the steps for package `p`.
pub open spec fn steps_for(steps: Seq<StepV>, p: Seq<char>) -> Seq<EffectV> {
    steps.map_values(|st: StepV| step_effect(st, p))
}

/// The effects of the steps for each package in turn.
pub open spec fn per_package_spec(ps: Seq<Seq<char>>, steps: Seq<StepV>) -> Seq<EffectV> {
    ps.map_values(|p: Seq<char>| steps_for(steps, p)).flatten_alt()
}

/// The text of a message for package `p`.
pub fn fill_text(segs: &Vec<Seg>, p: &str) -> (r: String)
    ensures
        r@ == fill(segs_view(segs@), p@),
{
    let ghost sv = segs_view(segs@);
    let ghost f = |s: SegV| seg_text(s, p@);
    let mut r = String::new();
    let mut i: usize = 0;
    assert(sv.take(0).map_values(f) =~= Seq::<Seq<char>>::empty());
    while i < segs.len()
        invariant
            i <= segs.len(),
            sv == segs_view(segs@),
            f == (|s: SegV| seg_text(s, p@)),
            r@ == sv.take(i as int).map_values(f).flatten_alt(),
        decreases segs.len() - i,
    {
        assert(sv.take(i + 1).map_values(f).drop_last() =~= sv.take(i as int).map_values(f));
        assert(sv[i as int] == segs@[i as int]@);
        match &segs[i] {
            Seg::Lit(t) => r.append(t.as_str()),
            Seg::Pkg => r.append(p),
        }
        i += 1;
    }
    assert(sv.take(segs.len() as int) =~= sv);
    r
}

/// The effects of the steps for package `p`.
pub fn apply_steps(steps: &Vec<Step>, p: &str) -> (r: Vec<Effect>)
    ensures
        effect_views(r@) == steps_for(steps_view(steps@), p@),
{
    let ghost sv = steps_view(steps@);
    let mut out: Vec<Effect> = Vec::new();
    let mut i: usize = 0;
    while i < steps.len()
        invariant
            i <= steps.len(),
            sv == steps_view(steps@),
            effect_views(out@) == steps_for(sv.take(i as int), p@),
        decreases steps.len() - i,
    {
        assert(sv[i as int] == steps@[i as int]@);
        let e = match &steps[i] {
            Step::Show(t, segs) => Effect::Show(Line { tone: *t, text: fill_text(segs, p) }),
            Step::Log(segs) => Effect::Log(fill_text(segs, p)),
            Step::Record(a, s, st, d) => Effect::Record(
                Record {
                    action: String::from_str(a.as_str()),
                    target: String::from_str(p),
                    source: String::from_str(s.as_str()),
                    status: String::from_str(st.as_str()),
                    detail: String::from_str(d.as_str()),
                },
            ),
        };
        assert(e@ == step_effect(sv[i as int], p@));
        push_effect(&mut out, e);
        i += 1;
        assert(steps_for(sv.take(i as int), p@) =~= steps_for(sv.take(i - 1), p@).push(
            step_effect(sv[i - 1], p@),
        ));
    }
    assert(sv.take(steps.len() as int) =~= sv);
    out
}

/// The effects of the steps for each package of `ps`, in order.
pub fn per_package(ps: &Vec<String>, steps: &Vec<Step>) -> (r: Vec<Effect>)
    ensures
        effect_views(r@) == per_package_spec(views(ps@), steps_view(steps@)),
{
    let ghost pv = views(ps@);
    let ghost sv = steps_view(steps@);
    let ghost f = |p: Seq<char>| steps_for(sv, p);
    let mut out: Vec<Effect> = Vec::new();
    let mut i: usize = 0;
    assert(pv.take(0).map_values(f) =~= Seq::<Seq<EffectV>>::empty());
    while i < ps.len()
        invariant
            i <= ps.len(),
            pv == views(ps@),
            sv == steps_view(steps@),
            f == (|p: Seq<char>| steps_for(sv, p)),
            effect_views(out@) == pv.take(i as int).map_values(f).flatten_alt(),
        decreases ps.len() - i,
    {
        assert(pv.take(i + 1).map_values(f).drop_last() =~= pv.take(i as int).map_values(f));
        assert(pv[i as int] == ps@[i as int]@);
        let more = apply_steps(steps, ps[i].as_str());
        append_effects(&mut out, more);
        i += 1;
    }
    assert(pv.take(ps.len() as int) =~= pv);
    out
}

/// A piece of fixed text.
pub fn lit(s: &str) -> (g: Seg)
    ensures
        g@ == SegV::Lit(s@),
{
    Seg::Lit(String::from_str(s))
}

/// The step "show `a`, then the package, then `b`".
pub open spec fn show_pkg(tone: Tone, a: Seq<char>, b: Seq<char>) -> StepV {
    StepV::Show(tone, seq![SegV::Lit(a), SegV::Pkg, SegV::Lit(b)])
}

/// The step "show `a`, the package, `b`, the package again, `c`".
pub open spec fn show_pkg2(tone: Tone, a: Seq<char>, b: Seq<char>, c: Seq<char>) -> StepV {
    StepV::Show(tone, seq![SegV::Lit(a), SegV::Pkg, SegV::Lit(b), SegV::Pkg, SegV::Lit(c)])
}

/// The step "show `a`" (which does not name the package).
pub open spec fn show_fixed(tone: Tone, a: Seq<char>) -> StepV {
    StepV::Show(tone, seq![SegV::Lit(a)])
}

/// The step "log `a`, then the package, then `b`".
pub open spec fn log_pkg(a: Seq<char>, b: Seq<char>) -> StepV {
    StepV::Log(seq![SegV::Lit(a), SegV::Pkg, SegV::Lit(b)])
}

/// The step "record an entry for the package".
pub open spec fn record_pkg(
    action: Seq<char>,
    source: Seq<char>,
    status: Seq<char>,
    detail: Seq<char>,
) -> StepV {
    StepV::Record(action, source, status, detail)
}

/// See [`show_pkg`].
pub fn step_show_pkg(tone: Tone, a: &str, b: &str) -> (s: Step)
    ensures
        s@ == show_pkg(tone, a@, b@),
{
    let v = vec![lit(a), Seg::Pkg, lit(b)];
    assert(segs_view(v@) =~= seq![SegV::Lit(a@), SegV::Pkg, SegV::Lit(b@)]);
    Step::Show(tone, v)
}

/// See [`show_pkg2`].
pub fn step_show_pkg2(tone: Tone, a: &str, b: &str, c: &str) -> (s: Step)
    ensures
        s@ == show_pkg2(tone, a@, b@, c@),
{
    let v = vec![lit(a), Seg::Pkg, lit(b), Seg::Pkg, lit(c)];
    assert(segs_view(v@) =~= seq![SegV::Lit(a@), SegV::Pkg, SegV::Lit(b@), SegV::Pkg, SegV::Lit(c@)]);
    Step::Show(tone, v)
}

/// See [`show_fixed`].
pub fn step_show_fixed(tone: Tone, a: &str) -> (s: Step)
    ensures
        s@ == show_fixed(tone, a@),
{
    let v = vec![lit(a)];
    assert(segs_view(v@) =~= seq![SegV::Lit(a@)]);
    Step::Show(tone, v)
}

/// See [`log_pkg`].
pub fn step_log_pkg(a: &str, b: &str) -> (s: Step)
    ensures
        s@ == log_pkg(a@, b@),
{
    let v = vec![lit(a), Seg::Pkg, lit(b)];
    assert(segs_view(v@) =~= seq![SegV::Lit(a@), SegV::Pkg, SegV::Lit(b@)]);
    Step::Log(v)
}

/// See [`record_pkg`].
pub fn step_record(action: &str, source: &str, status: &str, detail: &str) -> (s: Step)
    ensures
        s@ == record_pkg(action@, source@, status@, detail@),
{
    Step::Record(
        String::from_str(action),
        String::from_str(source),
        String::from_str(status),
        String::from_str(detail),
    )
}

} // verus!
