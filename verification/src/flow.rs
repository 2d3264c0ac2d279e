//! The conversation between a command's decisions and the program that
//! carries them out: the decisions ask for outside work with a [`Request`],
//! and get its outcome back as an [`Event`].

use vstd::prelude::*;
use crate::text::views;
use crate::lookup::{info_reply_view, search_view, AurInfoReply, AurSearch, InfoReplyV, SearchV};

verus! {

/// Outside work that a decision asks for.
pub enum Request {
    /// Look for a command on `$PATH`; answered by `Located`.
    Locate(String),
    /// Run pacman with these arguments, output discarded; answered by
    /// `Status` (whether it succeeded).
    Query(Vec<String>),
    /// Run a program and keep its standard output; answered by `Captured`.
    Capture(String, Vec<String>),
    /// Ask git whether a repository answers; answered by `Status`.
    Probe(String),
    /// Ask the user a yes/no question; answered by `Answer`.
    Confirm(String),
    /// Run a program and keep its output for `ShowOutput`; answered by
    /// `Inspected`.
    Inspect(String, Vec<String>),
    /// Print the output kept by the last `Inspect`; answered by `Ack`.
    ShowOutput,
    /// Ask the AUR information service at this address; answered by
    /// `InfoReply`.
    FetchInfo(String),
    /// Ask the AUR search service at this address; answered by
    /// `SearchReply`.
    FetchSearch(String),
    /// Run a program that changes the system: the program, its arguments,
    /// whether to run it with root rights, the directory to run it in, and
    /// whether to show its output; answered by `Ran`.
    Execute(String, Vec<String>, bool, Option<String>, bool),
    /// Create the build directory of an AUR package; answered by `Dir`.
    PrepareBuild(String),
    /// Remove the current build directory; answered by `Ack`.
    Cleanup,
    /// The command is over, with this outcome.
    Finish(Result<(), String>),
}

/// The outcome of outside work.
pub enum Event {
    /// The command starts.
    Start,
    /// Whether a command was found.
    Located(bool),
    /// Whether a program succeeded.
    Status(bool),
    /// A program's success and standard output, or nothing if it could not
    /// be started.
    Captured(Option<(bool, String)>),
    /// The line the user typed, or the error reading it.
    Answer(Result<String, String>),
    /// Whether a program succeeded and whether it printed anything on its
    /// standard output, or the error starting it.
    Inspected(Result<(bool, bool), String>),
    /// The answer of the AUR information service, or the error getting it.
    InfoReply(Result<AurInfoReply, String>),
    /// The answer of the AUR search service, or the error getting it.
    SearchReply(Result<AurSearch, String>),
    /// Whether a program succeeded, or the error starting it.
    Ran(Result<bool, String>),
    /// The build directory that was prepared.
    Dir(String),
    /// The work was done.
    Ack,
}

/// The abstract form of a [`Request`].
pub enum RequestV {
    Locate(Seq<char>),
    Query(Seq<Seq<char>>),
    Capture(Seq<char>, Seq<Seq<char>>),
    Probe(Seq<char>),
    Confirm(Seq<char>),
    Inspect(Seq<char>, Seq<Seq<char>>),
    ShowOutput,
    FetchInfo(Seq<char>),
    FetchSearch(Seq<char>),
    Execute(Seq<char>, Seq<Seq<char>>, bool, Option<Seq<char>>, bool),
    PrepareBuild(Seq<char>),
    Cleanup,
    Finish(Result<(), Seq<char>>),
}

/// The abstract form of an [`Event`].
pub enum EventV {
    Start,
    Located(bool),
    Status(bool),
    Captured(Option<(bool, Seq<char>)>),
    Answer(Result<Seq<char>, Seq<char>>),
    Inspected(Result<(bool, bool), Seq<char>>),
    InfoReply(Result<InfoReplyV, Seq<char>>),
    SearchReply(Result<SearchV, Seq<char>>),
    Ran(Result<bool, Seq<char>>),
    Dir(Seq<char>),
    Ack,
}

/// The view of an optional string.
pub open spec fn opt_str(o: Option<String>) -> Option<Seq<char>> {
    match o {
        Some(s) => Some(s@),
        None => None,
    }
}

impl View for Request {
    type V = RequestV;

    open spec fn view(&self) -> RequestV {
        match self {
            Request::Locate(n) => RequestV::Locate(n@),
            Request::Query(a) => RequestV::Query(views(a@)),
            Request::Capture(p, a) => RequestV::Capture(p@, views(a@)),
            Request::Probe(u) => RequestV::Probe(u@),
            Request::Confirm(q) => RequestV::Confirm(q@),
            Request::Inspect(p, a) => RequestV::Inspect(p@, views(a@)),
            Request::ShowOutput => RequestV::ShowOutput,
            Request::FetchInfo(u) => RequestV::FetchInfo(u@),
            Request::FetchSearch(u) => RequestV::FetchSearch(u@),
            Request::Execute(p, a, root, dir, show) => RequestV::Execute(
                p@,
                views(a@),
                *root,
                opt_str(*dir),
                *show,
            ),
            Request::PrepareBuild(p) => RequestV::PrepareBuild(p@),
            Request::Cleanup => RequestV::Cleanup,
            Request::Finish(r) => RequestV::Finish(
                match r {
                    Ok(_) => Ok(()),
                    Err(m) => Err(m@),
                },
            ),
        }
    }
}

impl View for Event {
    type V = EventV;

    open spec fn view(&self) -> EventV {
        match self {
            Event::Start => EventV::Start,
            Event::Located(b) => EventV::Located(*b),
            Event::Status(b) => EventV::Status(*b),
            Event::Captured(c) => EventV::Captured(
                match c {
                    Some(x) => Some((x.0, x.1@)),
                    None => None,
                },
            ),
            Event::Answer(a) => EventV::Answer(
                match a {
                    Ok(l) => Ok(l@),
                    Err(e) => Err(e@),
                },
            ),
            Event::Inspected(r) => EventV::Inspected(
                match r {
                    Ok(x) => Ok(*x),
                    Err(e) => Err(e@),
                },
            ),
            Event::InfoReply(r) => EventV::InfoReply(
                match r {
                    Ok(x) => Ok(info_reply_view(*x)),
                    Err(e) => Err(e@),
                },
            ),
            Event::SearchReply(r) => EventV::SearchReply(
                match r {
                    Ok(x) => Ok(search_view(*x)),
                    Err(e) => Err(e@),
                },
            ),
            Event::Ran(r) => EventV::Ran(
                match r {
                    Ok(b) => Ok(*b),
                    Err(e) => Err(e@),
                },
            ),
            Event::Dir(d) => EventV::Dir(d@),
            Event::Ack => EventV::Ack,
        }
    }
}

/// A request that changes the system: running a package operation, or
/// creating or removing a build directory.
pub open spec fn changes_system(r: RequestV) -> bool {
    match r {
        RequestV::Execute(..) => true,
        RequestV::PrepareBuild(_) => true,
        RequestV::Cleanup => true,
        _ => false,
    }
}

/// A finished run with this outcome.
pub fn finish_err(m: String) -> (r: Request)
    ensures
        r@ == RequestV::Finish(Err(m@)),
{
    Request::Finish(Err(m))
}

/// A successful end.
pub fn finish_ok() -> (r: Request)
    ensures
        r@ == RequestV::Finish(Ok(())),
{
    Request::Finish(Ok(()))
}

} // verus!
