//! Declarative descriptions of steps, flows and targets.
use vstd::prelude::*;
use vstd::string::*;
use std::sync::Arc;
use crate::compile::{compiled_chain, compiled_flow, compiled_step, outcome};
use crate::context::{Context, ContextView, ParentOrRoot, ParentView, RootContext};
use crate::package::{Content, ContentView, Package, PackageView};
use crate::utils::interpolated;
use crate::value::ValueView;
use crate::work::{run_of, Fixpoint, Work, Worker};
use crate::error::{CrawlError, CrawlResult};
use crate::shared::share;
use crate::station::Station;
use crate::value::{Args, Value};
use crate::worktypes::WorkType;

verus! {

/// One step: a kind of work and, optionally, the kind of work that deferred
/// payloads continue with.
#[derive(Debug)]
pub struct WorkDescription {
    pub name: Option<String>,
    pub work: Box<WorkType>,
    pub then: Option<Arc<WorkType>>,
}

/// A named chain of steps.
#[derive(Debug)]
pub struct FlowDescription {
    pub name: String,
    pub work: Vec<WorkDescription>,
}

/// The input of a target and the chain of steps that it goes through.
#[derive(Debug)]
pub struct WorkTargetDescription {
    pub input: Value,
    pub steps: Vec<WorkDescription>,
}

/// A target: its name, its work and the flows that its steps can name.
#[derive(Debug)]
pub struct TargetDescription {
    pub name: String,
    pub work: WorkTargetDescription,
    pub flows: Vec<FlowDescription>,
}

impl WorkDescription {
    /// Compiles the step against `ctx`: its work now, its continuation when
    /// a payload is deferred.
    pub fn request_station(&self, ctx: &Context) -> (r: CrawlResult<Station>)
        ensures
            outcome(r) == compiled_step(*self, ctx@),
        decreases ctx@.budget, 2nat, self, 0nat,
    {
        let WorkDescription { name: _, work, then } = self;
        match work.request_station(ctx) {
            Ok(base) => {
                let then = match then {
                    Some(t) => Some(share(t)),
                    None => None,
                };
                Ok(Station::Described { base: Arc::new(base), then, ctx: ctx.clone() })
            },
            Err(e) => Err(e),
        }
    }
}

/// Compiles `steps` against `ctx` into one executor in which each step feeds
/// the next.
pub(crate) fn compile_chain(steps: &Vec<WorkDescription>, ctx: &Context, flow: bool) -> (r:
    CrawlResult<Station>)
    ensures
        outcome(r) == compiled_chain(*steps, steps.len() as nat, ctx@, flow),
    decreases ctx@.budget, 2nat, steps, 0nat,
{
    if steps.len() == 0 {
        return Err(CrawlError::not_found("no steps defined"));
    }
    let mut work = match steps[0].request_station(ctx) {
        Ok(w) => w,
        Err(e) => {
            proof {
                lemma_chain_fails_with_first(*steps, steps.len() as nat, 1, ctx@, flow);
            }
            return Err(e);
        },
    };
    let mut i: usize = 1;
    while i < steps.len()
        invariant
            1 <= i <= steps.len(),
            compiled_chain(*steps, i as nat, ctx@, flow) == Ok::<_, crate::error::ErrorKindView>(
                work@,
            ),
        decreases steps.len() - i,
    {
        match steps[i].request_station(ctx) {
            Ok(next) => {
                work = if flow {
                    Station::FlowSteps { first: Arc::new(work), next: Arc::new(next) }
                } else {
                    Station::Steps { first: Arc::new(work), next: Arc::new(next) }
                };
            },
            Err(e) => {
                proof {
                    lemma_chain_fails_with_first(
                        *steps,
                        steps.len() as nat,
                        (i + 1) as nat,
                        ctx@,
                        flow,
                    );
                }
                return Err(e);
            },
        }
        i += 1;
    }
    Ok(work)
}

/// A chain fails as its shortest failing beginning does.
pub proof fn lemma_chain_fails_with_first(
    steps: Vec<WorkDescription>,
    n: nat,
    m: nat,
    ctx: crate::context::ContextView,
    flow: bool,
)
    requires
        1 <= m <= n <= steps.len(),
        compiled_chain(steps, m, ctx, flow) is Err,
    ensures
        compiled_chain(steps, n, ctx, flow) == compiled_chain(steps, m, ctx, flow),
    decreases n,
{
    if m < n {
        lemma_chain_fails_with_first(steps, (n - 1) as nat, m, ctx, flow);
    }
}

/// Compiles `steps` against `ctx` into one executor in which every payload
/// that survives a step is fed into the next. Without steps there is
/// nothing to run, and the compilation fails.
pub fn compile_steps(steps: &Vec<WorkDescription>, ctx: &Context) -> (r: CrawlResult<Station>)
    ensures
        outcome(r) == compiled_chain(*steps, steps.len() as nat, ctx@, false),
        steps.len() == 0 ==> outcome(r) == Err::<crate::station::StationView, _>(
            crate::compile::no_steps(),
        ),
    decreases ctx@.budget, 2nat, steps, 1nat,
{
    compile_chain(steps, ctx, false)
}

impl FlowDescription {
    /// Compiles the flow under `ctx`: the chain of its steps, in a child
    /// context labelled with the flow's name that carries `args`.
    pub fn request_station(&self, args: &Args, ctx: &Context) -> (r: CrawlResult<Station>)
        ensures
            outcome(r) == compiled_flow(*self, args@, ctx@),
            self.work.len() == 0 ==> outcome(r) == Err::<crate::station::StationView, _>(
                crate::compile::no_steps(),
            ),
        decreases ctx@.budget, 3nat, self, 0nat,
    {
        let mut label = String::from_str("Flow(");
        label.append(self.name.as_str());
        label.append(")");
        let flow_ctx = ctx.child(label.as_str(), Some(args.clone()));
        compile_chain(&self.work, &flow_ctx, true)
    }
}

/// The label of the context in which the steps of the target named `name`
/// are compiled.
pub open spec fn target_label(name: Seq<char>) -> Seq<char> {
    "Target("@ + name + ")"@
}

/// The arguments that the context of a target adds: the name of the target.
pub open spec fn target_args(name: Seq<char>) -> Map<Seq<char>, ValueView> {
    Map::<Seq<char>, ValueView>::empty().insert("targetName"@, ValueView::Text(name))
}

/// The context in which the steps of a target are compiled under `ctx`.
pub open spec fn target_context(ctx: ContextView) -> ContextView {
    ctx.child(
        target_label(ctx.root().inner.target.d.name@),
        Some(target_args(ctx.root().inner.target.d.name@)),
    )
}

/// The input of a target as its first payload carries it: a string
/// interpolated in `ctx`, any other value as it is.
pub open spec fn target_input(input: ValueView, ctx: ContextView) -> ValueView {
    match input {
        ValueView::Text(s) => ValueView::Text(interpolated(s, ctx.merged())),
        other => other,
    }
}

/// The context, right under the root, that a target starts from.
pub open spec fn target_base(root: RootContext) -> ContextView {
    ContextView {
        label: None,
        args: None,
        budget: root.spec_budget(),
        parent: ParentView::Root(root),
    }
}

/// Whether `r` is what building the work of a target under `ctx` yields:
/// the failure of compiling its steps, or the unit of its input, under the
/// name of the target, and the executor that its steps compile to.
pub open spec fn builds(
    work: WorkTargetDescription,
    ctx: ContextView,
    r: CrawlResult<Work<Package>>,
) -> bool {
    match compiled_chain(work.steps, work.steps.len() as nat, target_context(ctx), false) {
        Ok(station) => r matches Ok(unit) && unit.work@ == station && unit.data@ == (PackageView {
            name: ctx.root().inner.target.d.name@,
            content: ContentView::Value(target_input(work.input@, ctx)),
        }),
        Err(e) => r matches Err(failure) && failure@ == e,
    }
}

impl WorkTargetDescription {
    /// Builds the first unit of the target: its input, interpolated in `ctx`
    /// if it is a string, bound to the executor that its steps compile to in
    /// a child context of their own. Without steps the build fails.
    pub fn build(&self, ctx: &Context) -> (r: CrawlResult<Work<Package>>)
        ensures
            builds(*self, ctx@, r),
            self.steps.len() == 0 ==> (r matches Err(e) && e@ == crate::compile::no_steps()),
    {
        if self.steps.len() == 0 {
            return Err(CrawlError::not_found("no steps defined"));
        }
        let input = match self.input.as_str() {
            Some(s) => Value::Text(ctx.interpolate(s).unwrap()),
            None => self.input.clone(),
        };
        let name = &ctx.root().target().d.name;
        let mut label = String::from_str("Target(");
        label.append(name.as_str());
        label.append(")");
        let mut args = Args::new();
        args.insert(String::from_str("targetName"), Value::Text(name.clone()));
        let inner = ctx.child(label.as_str(), Some(args));
        assert(inner@ == target_context(ctx@));
        match compile_steps(&self.steps, &inner) {
            Ok(work) => Ok(Work::new(Package::new(name.as_str(), Content::Value(input)), work)),
            Err(e) => Err(e),
        }
    }

    /// Builds the first unit of the target right under `parent` and starts
    /// the run that takes it to the end.
    pub fn run(&self, parent: RootContext) -> (r: CrawlResult<Fixpoint<Package>>)
        ensures
            match r {
                Ok(run) => exists|unit: Work<Package>|
                    builds(*self, target_base(parent), Ok(unit)) && run@ == run_of(seq![unit]),
                Err(e) => builds(*self, target_base(parent), Err(e)),
            },
    {
        let ctx = Context::new(ParentOrRoot::Root(parent), None, None);
        match self.build(&ctx) {
            Ok(work) => {
                let mut units: Vec<Work<Package>> = Vec::new();
                units.push(work);
                assert(units@ == seq![work]);
                Ok(Worker::new().run(units))
            },
            Err(e) => Err(e),
        }
    }
}

} // verus!
