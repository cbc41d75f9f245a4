//! The kinds of work that a step can describe.
use vstd::prelude::*;
use vstd::string::*;
use std::sync::Arc;
use crate::compile::{compiled_work, concat_context, outcome};
use crate::context::{Context, ParentOrRoot};
use crate::descriptions::{compile_steps, WorkDescription};
use crate::error::{CrawlError, CrawlResult};
use crate::station::Station;
use crate::value::Args;

verus! {

/// The method of an HTTP request.
#[derive(Debug, Clone, Copy, PartialEq, Eq, Structural)]
pub enum Method {
    GET,
    POST,
    PUT,
    DELETE,
    HEAD,
    PATCH,
    OPTIONS,
}

/// Fetches the resource whose URL the payload carries.
#[derive(Debug)]
pub struct Http {
    pub method: Option<Method>,
}

/// Runs a script of the page-extraction engine on the payload.
#[derive(Debug)]
pub struct Duktape {
    pub script: String,
}

/// Stands for a named flow of the target.
#[derive(Debug)]
pub struct Flow {
    pub flow_name: String,
    pub arguments: Option<Args>,
}

/// Joins the bytes that a chain of steps yields into one payload.
#[derive(Debug)]
pub struct Concat {
    pub name: String,
    pub steps: Vec<WorkDescription>,
}

/// Hands the payload to a child process.
#[derive(Debug)]
pub struct ChildProcess {
    pub command: String,
    pub args: Option<Vec<String>>,
}

/// Writes the payload under a directory.
#[derive(Debug)]
pub struct WriteDirectory {
    pub path: String,
}

/// Hands the payload to an executor that the embedding program supplies,
/// known by its handle.
#[derive(Debug)]
pub struct PassThrough {
    pub service: Option<u64>,
}

/// A description of one kind of work.
#[derive(Debug)]
pub enum WorkType {
    Http(Http),
    Duktape(Duktape),
    Flow(Flow),
    Concat(Concat),
    ChildProcess(ChildProcess),
    WriteDirectory(WriteDirectory),
    PassThrough(PassThrough),
}

impl Http {
    /// The executor that fetches with the described method, `GET` where none
    /// is described.
    pub fn request_station(&self, ctx: &Context) -> (r: CrawlResult<Station>)
        ensures
            outcome(r) == compiled_work(WorkType::Http(*self), ctx@),
    {
        let method = match self.method {
            Some(m) => m,
            None => Method::GET,
        };
        Ok(Station::Http { method })
    }
}

impl Duktape {
    /// The executor that runs the script named by interpolating `script` in
    /// `ctx`.
    pub fn request_station(&self, ctx: &Context) -> (r: CrawlResult<Station>)
        ensures
            outcome(r) == compiled_work(WorkType::Duktape(*self), ctx@),
    {
        let script = ctx.interpolate(self.script.as_str()).unwrap();
        Ok(Station::Duktape { script })
    }
}

impl ChildProcess {
    /// The executor that runs the command named by interpolating `command`
    /// in `ctx`.
    pub fn request_station(&self, ctx: &Context) -> (r: CrawlResult<Station>)
        ensures
            outcome(r) == compiled_work(WorkType::ChildProcess(*self), ctx@),
    {
        let command = ctx.interpolate(self.command.as_str()).unwrap();
        Ok(Station::ChildProcess { command })
    }
}

impl WriteDirectory {
    /// The executor that writes under the directory named by interpolating
    /// `path` in `ctx`, taken relative to the path of the target.
    pub fn request_station(&self, ctx: &Context) -> (r: CrawlResult<Station>)
        ensures
            outcome(r) == compiled_work(WorkType::WriteDirectory(*self), ctx@),
    {
        let path = ctx.interpolate(self.path.as_str()).unwrap();
        let root = ctx.root().target().p.clone();
        Ok(Station::WriteDirectory { path, root })
    }
}

impl PassThrough {
    /// The supplied executor; without one, a failure.
    pub fn request_station(&self, _ctx: &Context) -> (r: CrawlResult<Station>)
        ensures
            outcome(r) == compiled_work(WorkType::PassThrough(*self), _ctx@),
    {
        match self.service {
            Some(id) => Ok(Station::External(id)),
            None => Err(CrawlError::not_found("inner serice not found")),
        }
    }
}

impl Flow {
    /// The executor of the named flow, compiled with the described
    /// arguments.
    pub fn request_station(&self, ctx: &Context) -> (r: CrawlResult<Station>)
        ensures
            outcome(r) == compiled_work(WorkType::Flow(*self), ctx@),
        decreases ctx@.budget, 1nat, self, 0nat,
    {
        match &self.arguments {
            Some(args) => ctx.root().flow_within(self.flow_name.as_str(), args, ctx.node.budget),
            None => {
                let args = Args::new();
                ctx.root().flow_within(self.flow_name.as_str(), &args, ctx.node.budget)
            },
        }
    }
}

impl Concat {
    /// The executor that runs the chain of the described steps, compiled in
    /// a context of their own, and joins what they yield.
    pub fn request_station(&self, ctx: &Context) -> (r: CrawlResult<Station>)
        ensures
            outcome(r) == compiled_work(WorkType::Concat(*self), ctx@),
        decreases ctx@.budget, 2nat, self, 0nat,
    {
        let inner_ctx = Context::new(
            ParentOrRoot::Parent(ctx.clone()),
            None,
            Some(String::from_str("concat")),
        );
        assert(inner_ctx@ == concat_context(ctx@));
        match compile_steps(&self.steps, &inner_ctx) {
            Ok(work) => Ok(
                Station::Concat { name: self.name.clone(), inner: Arc::new(work), ctx: inner_ctx },
            ),
            Err(e) => Err(e),
        }
    }
}

impl WorkType {
    /// Compiles the described work against `ctx` into an executor.
    pub fn request_station(&self, ctx: &Context) -> (r: CrawlResult<Station>)
        ensures
            outcome(r) == compiled_work(*self, ctx@),
        decreases ctx@.budget, 2nat, self, 0nat,
    {
        match self {
            WorkType::Http(w) => w.request_station(ctx),
            WorkType::Duktape(w) => w.request_station(ctx),
            WorkType::Flow(w) => w.request_station(ctx),
            WorkType::Concat(w) => w.request_station(ctx),
            WorkType::ChildProcess(w) => w.request_station(ctx),
            WorkType::WriteDirectory(w) => w.request_station(ctx),
            WorkType::PassThrough(w) => w.request_station(ctx),
        }
    }
}

} // verus!
