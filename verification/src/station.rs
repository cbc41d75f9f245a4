//! Compiled executors.
use vstd::prelude::*;
use vstd::string::*;
use std::sync::Arc;
use crate::context::{Context, ContextView};
use crate::worktypes::{Method, WorkType};

verus! {

/// A compiled executor: what a step, or a chain of steps, does to a payload.
/// The leaves are carried out by the embedding program; the others say how
/// the outcomes of their parts are routed.
#[derive(Debug)]
pub enum Station {
    /// An executor that the embedding program supplies, by its handle.
    External(u64),
    /// Fetches the URL that the payload carries.
    Http { method: Method },
    /// Runs the script on the payload.
    Duktape { script: String },
    /// Hands the payload to the command.
    ChildProcess { command: String },
    /// Writes the payload under `path`, which is relative to `root` unless it
    /// is absolute.
    WriteDirectory { path: String, root: String },
    /// Runs `inner` to the end and joins the bytes of its results into one
    /// payload, named by interpolating `name` in `ctx`.
    Concat { name: String, inner: Arc<Station>, ctx: Context },
    /// Runs `base`; if it defers payloads and `then` is there, compiles
    /// `then` in `ctx` and routes the deferred payloads into it.
    Described { base: Arc<Station>, then: Option<Arc<WorkType>>, ctx: Context },
    /// Runs `first` and feeds every payload that survives into `next`.
    Steps { first: Arc<Station>, next: Arc<Station> },
    /// Runs `first`, binds its successful results to `next` and chains its
    /// pending units with `next`.
    FlowSteps { first: Arc<Station>, next: Arc<Station> },
    /// Runs `first` to the end, then `next` on every successful result.
    Chain { first: Arc<Station>, next: Arc<Station> },
}

/// The mathematical model of a [`Station`].
pub enum StationView {
    External(u64),
    Http { method: Method },
    Duktape { script: Seq<char> },
    ChildProcess { command: Seq<char> },
    WriteDirectory { path: Seq<char>, root: Seq<char> },
    Concat { name: Seq<char>, inner: Box<StationView>, ctx: ContextView },
    Described { base: Box<StationView>, then: Option<WorkType>, ctx: ContextView },
    Steps { first: Box<StationView>, next: Box<StationView> },
    FlowSteps { first: Box<StationView>, next: Box<StationView> },
    Chain { first: Box<StationView>, next: Box<StationView> },
}

impl View for Station {
    type V = StationView;

    open spec fn view(&self) -> StationView {
        self.model()
    }
}

impl Station {
    /// The model of the executor.
    pub open spec fn model(self) -> StationView
        decreases self,
    {
        match self {
            Station::External(id) => StationView::External(id),
            Station::Http { method } => StationView::Http { method },
            Station::Duktape { script } => StationView::Duktape { script: script@ },
            Station::ChildProcess { command } => StationView::ChildProcess { command: command@ },
            Station::WriteDirectory { path, root } => StationView::WriteDirectory {
                path: path@,
                root: root@,
            },
            Station::Concat { name, inner, ctx } => StationView::Concat {
                name: name@,
                inner: Box::new(inner.model()),
                ctx: ctx@,
            },
            Station::Described { base, then, ctx } => StationView::Described {
                base: Box::new(base.model()),
                then: match then {
                    Some(t) => Some(*t),
                    None => None,
                },
                ctx: ctx@,
            },
            Station::Steps { first, next } => StationView::Steps {
                first: Box::new(first.model()),
                next: Box::new(next.model()),
            },
            Station::FlowSteps { first, next } => StationView::FlowSteps {
                first: Box::new(first.model()),
                next: Box::new(next.model()),
            },
            Station::Chain { first, next } => StationView::Chain {
                first: Box::new(first.model()),
                next: Box::new(next.model()),
            },
        }
    }
}

/// The model of a list of directories: each as its path and the path that
/// it is relative to.
pub open spec fn directory_texts(list: Seq<(String, String)>) -> Seq<(Seq<char>, Seq<char>)> {
    list.map_values(|d: (String, String)| (d.0@, d.1@))
}

/// The directories that `station` writes under, from left to right: each
/// as its path and the path that it is relative to. The continuation of a
/// step is not compiled yet and counts for nothing.
pub open spec fn directories_of(station: Station) -> Seq<(Seq<char>, Seq<char>)>
    decreases station,
{
    match station {
        Station::WriteDirectory { path, root } => seq![(path@, root@)],
        Station::Concat { name, inner, ctx } => directories_of(*inner),
        Station::Described { base, then, ctx } => directories_of(*base),
        Station::Steps { first, next } => directories_of(*first) + directories_of(*next),
        Station::FlowSteps { first, next } => directories_of(*first) + directories_of(*next),
        Station::Chain { first, next } => directories_of(*first) + directories_of(*next),
        _ => Seq::empty(),
    }
}

impl Station {
    /// How many payloads the executor may be carried out on at a time, where
    /// it has a bound of its own: writing under a directory goes one
    /// payload after the other.
    pub fn limit(&self) -> (r: Option<usize>)
        ensures
            r == (if *self is WriteDirectory {
                Some(1usize)
            } else {
                None
            }),
    {
        match self {
            Station::WriteDirectory { path, root } => Some(1),
            _ => None,
        }
    }

    /// Adds to `out` the directories that the executor writes under.
    pub fn collect_directories(&self, out: &mut Vec<(String, String)>)
        ensures
            directory_texts(final(out)@) == directory_texts(old(out)@) + directories_of(*self),
        decreases self,
    {
        let ghost before = directory_texts(out@);
        match self {
            Station::WriteDirectory { path, root } => {
                let ghost list = out@;
                out.push((path.clone(), root.clone()));
                assert(directory_texts(out@) == directory_texts(list).push((path@, root@)));
                assert(before.push((path@, root@)) == before + seq![(path@, root@)]);
            },
            Station::Concat { name, inner, ctx } => {
                inner.collect_directories(out);
            },
            Station::Described { base, then, ctx } => {
                base.collect_directories(out);
            },
            Station::Steps { first, next } => {
                first.collect_directories(out);
                next.collect_directories(out);
                assert((before + directories_of(**first)) + directories_of(**next) == before + (
                directories_of(**first) + directories_of(**next)));
            },
            Station::FlowSteps { first, next } => {
                first.collect_directories(out);
                next.collect_directories(out);
                assert((before + directories_of(**first)) + directories_of(**next) == before + (
                directories_of(**first) + directories_of(**next)));
            },
            Station::Chain { first, next } => {
                first.collect_directories(out);
                next.collect_directories(out);
                assert((before + directories_of(**first)) + directories_of(**next) == before + (
                directories_of(**first) + directories_of(**next)));
            },
            _ => {
                assert(before + Seq::<(Seq<char>, Seq<char>)>::empty() == before);
            },
        }
    }

    /// The directories that the executor writes under, from left to right.
    pub fn directories(&self) -> (r: Vec<(String, String)>)
        ensures
            directory_texts(r@) == directories_of(*self),
    {
        let mut out: Vec<(String, String)> = Vec::new();
        self.collect_directories(&mut out);
        assert(directory_texts(Seq::<(String, String)>::empty()) + directories_of(*self)
            == directories_of(*self));
        out
    }
}

} // verus!
