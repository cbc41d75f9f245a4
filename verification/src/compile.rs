//! What compiling a description yields: the model of the executor that each
//! kind of work, step, chain and flow stands for in a context.
use vstd::prelude::*;
use vstd::string::*;
use crate::context::{ContextView, ParentView, RootContext};
use crate::descriptions::{FlowDescription, WorkDescription};
use crate::error::{CrawlResult, ErrorKindView};
use crate::station::{Station, StationView};
use crate::utils::interpolated;
use crate::value::{Args, ValueView};
use crate::worktypes::{Method, WorkType};

verus! {

/// The model of what compiling yields: an executor, or the failure.
pub type Compiled = Result<StationView, ErrorKindView>;

/// The model of the result of a compilation.
pub open spec fn outcome(r: CrawlResult<Station>) -> Compiled {
    match r {
        Ok(station) => Ok(station@),
        Err(e) => Err(e@),
    }
}

/// The failure of compiling a chain without steps.
pub open spec fn no_steps() -> ErrorKindView {
    ErrorKindView::NotFound("no steps defined"@)
}

/// The failure of compiling a pass-through without an executor.
pub open spec fn no_service() -> ErrorKindView {
    ErrorKindView::NotFound("inner serice not found"@)
}

/// The failure of entering more flows, one inside the other, than the target
/// declares: some flow stands for itself.
pub open spec fn circular() -> ErrorKindView {
    ErrorKindView::Error("circular flow reference"@)
}

/// The arguments that a reference to a flow passes on.
pub open spec fn passed(arguments: Option<Args>) -> Map<Seq<char>, ValueView> {
    match arguments {
        Some(a) => a@,
        None => Map::empty(),
    }
}

/// The position of the first flow from `from` on that is named `name`.
pub open spec fn first_named(flows: Seq<FlowDescription>, name: Seq<char>, from: int) -> Option<int>
    decreases flows.len() - from,
{
    if from < 0 || from >= flows.len() {
        None
    } else if flows[from].name@ == name {
        Some(from)
    } else {
        first_named(flows, name, from + 1)
    }
}

/// The label of the context in which the steps of a flow are compiled.
pub open spec fn flow_label(name: Seq<char>) -> Seq<char> {
    "Flow("@ + name + ")"@
}

/// The context in which the steps of a concatenation are compiled.
pub open spec fn concat_context(ctx: ContextView) -> ContextView {
    ContextView {
        label: Some("concat"@),
        args: None,
        budget: ctx.budget,
        parent: ParentView::Parent(Box::new(ctx)),
    }
}

/// The context, right under the root, that a referenced flow starts from
/// when `budget` more flows may be entered.
pub open spec fn flow_base(root: RootContext, budget: nat) -> ContextView {
    ContextView { label: None, args: None, budget, parent: ParentView::Root(root) }
}

/// What a kind of work compiles to in `ctx`.
pub open spec fn compiled_work(work: WorkType, ctx: ContextView) -> Compiled
    decreases ctx.budget, 1nat, work, 0nat,
{
    match work {
        WorkType::Http(h) => Ok(
            StationView::Http {
                method: match h.method {
                    Some(m) => m,
                    None => Method::GET,
                },
            },
        ),
        WorkType::Duktape(d) => Ok(
            StationView::Duktape { script: interpolated(d.script@, ctx.merged()) },
        ),
        WorkType::Flow(f) => compiled_named_flow(
            ctx.root(),
            f.flow_name@,
            passed(f.arguments),
            ctx.budget,
        ),
        WorkType::Concat(c) => match compiled_chain(
            c.steps,
            c.steps.len() as nat,
            concat_context(ctx),
            false,
        ) {
            Ok(inner) => Ok(
                StationView::Concat {
                    name: c.name@,
                    inner: Box::new(inner),
                    ctx: concat_context(ctx),
                },
            ),
            Err(e) => Err(e),
        },
        WorkType::ChildProcess(c) => Ok(
            StationView::ChildProcess { command: interpolated(c.command@, ctx.merged()) },
        ),
        WorkType::WriteDirectory(w) => Ok(
            StationView::WriteDirectory {
                path: interpolated(w.path@, ctx.merged()),
                root: ctx.root().inner.target.p@,
            },
        ),
        WorkType::PassThrough(p) => match p.service {
            Some(id) => Ok(StationView::External(id)),
            None => Err(no_service()),
        },
    }
}

/// What a step compiles to in `ctx`: its work, with its continuation and the
/// context kept for the time when a payload is deferred.
pub open spec fn compiled_step(step: WorkDescription, ctx: ContextView) -> Compiled
    decreases ctx.budget, 1nat, step, 0nat,
{
    match compiled_work(*step.work, ctx) {
        Ok(base) => Ok(
            StationView::Described { base: Box::new(base), then: continuation(step), ctx },
        ),
        Err(e) => Err(e),
    }
}

/// The kind of work that the deferred payloads of a step continue with.
pub open spec fn continuation(step: WorkDescription) -> Option<WorkType> {
    match step {
        WorkDescription { name: _, work: _, then: Some(t) } => Some(*t),
        WorkDescription { name: _, work: _, then: None } => None,
    }
}

/// What the first `n` steps of `steps` compile to in `ctx`, each feeding the
/// next: the failure of the first step that fails, and for no steps at all
/// the failure [`no_steps`].
pub open spec fn compiled_chain(
    steps: Vec<WorkDescription>,
    n: nat,
    ctx: ContextView,
    flow: bool,
) -> Compiled
    decreases ctx.budget, 1nat, steps, n,
{
    if n == 0 || n > steps.len() {
        Err(no_steps())
    } else if n == 1 {
        compiled_step(steps[0], ctx)
    } else {
        match compiled_chain(steps, (n - 1) as nat, ctx, flow) {
            Ok(first) => match compiled_step(steps[n - 1], ctx) {
                Ok(next) => Ok(
                    if flow {
                        StationView::FlowSteps { first: Box::new(first), next: Box::new(next) }
                    } else {
                        StationView::Steps { first: Box::new(first), next: Box::new(next) }
                    },
                ),
                Err(e) => Err(e),
            },
            Err(e) => Err(e),
        }
    }
}

/// What a flow compiles to under `ctx` with the arguments `args`: the chain
/// of its steps, in a child context that carries the arguments.
pub open spec fn compiled_flow(
    flow: FlowDescription,
    args: Map<Seq<char>, ValueView>,
    ctx: ContextView,
) -> Compiled
    decreases ctx.budget, 2nat, flow, 0nat,
{
    compiled_chain(
        flow.work,
        flow.work.len() as nat,
        ctx.child(flow_label(flow.name@), Some(args)),
        true,
    )
}

/// What a reference to the flow `name` compiles to when `budget` more flows
/// may be entered: the first flow of that name, compiled right under the
/// root; [`ErrorKindView::NotFound`] with the name where the target has no
/// such flow; [`circular`] where none may be entered any more.
pub open spec fn compiled_named_flow(
    root: RootContext,
    name: Seq<char>,
    args: Map<Seq<char>, ValueView>,
    budget: nat,
) -> Compiled
    decreases budget, 0nat, root, 0nat,
{
    match first_named(root.inner.target.d.flows@, name, 0) {
        None => Err(ErrorKindView::NotFound(name)),
        Some(i) => if budget == 0 {
            Err(circular())
        } else {
            compiled_flow(
                root.inner.target.d.flows@[i],
                args,
                flow_base(root, (budget - 1) as nat),
            )
        },
    }
}

} // verus!
