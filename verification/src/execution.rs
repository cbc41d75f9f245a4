//! Running one compiled executor on one payload, step by step: what the
//! embedding program has to do next, and what follows from its answer.
use vstd::prelude::*;
use vstd::string::*;
use std::sync::Arc;
use crate::compile::compiled_work;
use crate::context::{Context, ContextView, ParentOrRoot, ParentView};
use crate::error::{error_text, CrawlError, CrawlResult};
use crate::package::{concat_bytes, joined, Content, ContentView, Package, PackageView};
use crate::shared::share;
use crate::station::Station;
use crate::utils::interpolated;
use crate::work::{
    as_results, as_thens, bound_to, defers, failures_of, lemma_only_results,
    lemma_results_of_concat, lemma_single_entry, lemma_thens_of_concat, lemma_works_of_concat,
    results_of, run_and_of, run_chain_of, run_of, successes_of, thens_of, works_of, Fixpoint,
    FixpointView, Outcome, Rule, Tail, Work, WorkOutput, Worker,
};
use crate::worktypes::WorkType;

verus! {

/// What follows the outcome of an executor that was run as a part.
#[derive(Debug)]
pub enum AfterOutcome {
    /// The work of a step was run: its deferred payloads go to the
    /// continuation, compiled in the context.
    Base { then: Option<Arc<WorkType>>, ctx: Context },
    /// The first part of a chain was run: what it yielded goes to the next.
    First { next: Arc<Station>, flow: bool },
    /// The executor of a chained unit was run: its results go to the next.
    ChainFirst { next: Arc<Station> },
}

/// What follows a run that was driven to the end.
#[derive(Debug)]
pub enum AfterRun {
    /// Its results are the outcome.
    Results,
    /// Its results and the deferred payloads that it set aside are the
    /// outcome.
    ResultsAndThens,
    /// The bytes of its results are joined under the name that `name` gives
    /// in the context.
    Concat { name: String, ctx: Context },
}

/// What follows the reading of the contents: they are joined under `name`.
#[derive(Debug)]
pub struct AfterRead {
    pub name: String,
}

/// What the embedding program has to do next for one execution.
#[derive(Debug)]
pub enum Request {
    /// Carry out the leaf executor on the payload; what it yields is the
    /// outcome of the execution.
    Perform { station: Arc<Station>, payload: Package },
    /// Run the executor on the payload and hand back its outcome.
    Execute { station: Arc<Station>, payload: Package, after: AfterOutcome },
    /// Drive the run to the end and hand it back.
    Run { run: Fixpoint<Package>, after_run: AfterRun },
    /// Read the bytes of each package and hand them back, in this order.
    Read { packages: Vec<Package>, after_read: AfterRead },
    /// Nothing: this is the outcome of the execution.
    Done(Outcome<Package>),
}

/// The mathematical model of a [`Request`].
pub enum RequestView {
    Perform { station: Station, payload: Package },
    Execute { station: Station, payload: Package, after: AfterOutcome },
    Run { run: FixpointView<Package>, after_run: AfterRun },
    Read { packages: Seq<Package>, name: Seq<char> },
    Done(Result<Seq<WorkOutput<Package>>, Seq<char>>),
}

/// The model of an outcome.
pub open spec fn outcome_view(outcome: Outcome<Package>) -> Result<
    Seq<WorkOutput<Package>>,
    Seq<char>,
> {
    match outcome {
        Ok(list) => Ok(list@),
        Err(message) => Err(message@),
    }
}

impl View for Request {
    type V = RequestView;

    open spec fn view(&self) -> RequestView {
        match *self {
            Request::Perform { station, payload } => RequestView::Perform {
                station: *station,
                payload,
            },
            Request::Execute { station, payload, after } => RequestView::Execute {
                station: *station,
                payload,
                after,
            },
            Request::Run { run, after_run } => RequestView::Run { run: run@, after_run },
            Request::Read { packages, after_read } => RequestView::Read {
                packages: packages@,
                name: after_read.name@,
            },
            Request::Done(outcome) => RequestView::Done(outcome_view(outcome)),
        }
    }
}

/// The failure of a chain of a flow whose first part defers a payload: a
/// flow has no continuation of its own.
pub open spec fn not_chain() -> Seq<char> {
    "not chain"@
}

/// The failure of joining the bytes of a result that failed.
pub open spec fn failed_part() -> Seq<char> {
    "cannot concatenate a failed result"@
}

/// The units that the next part of a flow gets from what the first part
/// yielded, in its order: every successful result bound to `next`, every
/// new unit chained with `next`.
pub open spec fn flow_units(pack: Seq<WorkOutput<Package>>, next: Station) -> Seq<Work<Package>>
    decreases pack.len(),
{
    if pack.len() == 0 {
        Seq::empty()
    } else {
        let rest = flow_units(pack.drop_last(), next);
        match pack.last() {
            WorkOutput::Result(Ok(o)) => rest.push(Work { data: o, work: Arc::new(next) }),
            WorkOutput::Work(e) => rest.push(
                Work {
                    data: e.data,
                    work: Arc::new(Station::Chain { first: e.work, next: Arc::new(next) }),
                },
            ),
            _ => rest,
        }
    }
}

/// The run that the next part of a flow starts with.
pub open spec fn flow_run_of(pack: Seq<WorkOutput<Package>>, next: Station) -> FixpointView<
    Package,
> {
    FixpointView {
        output: failures_of(results_of(pack)),
        thens: Seq::empty(),
        pending: flow_units(pack, next),
        rule: Rule::Refuse,
        tail: Tail::Nothing,
    }
}

/// The run of a chained unit: the new units run to the end, then every
/// successful result continues as a unit of `next`; the deferred payloads
/// are set aside.
pub open spec fn chain_run_of(pack: Seq<WorkOutput<Package>>, next: Station) -> FixpointView<
    Package,
> {
    (FixpointView {
        output: results_of(pack),
        thens: thens_of(pack),
        pending: works_of(pack),
        rule: Rule::Refuse,
        tail: Tail::Feed(Arc::new(next)),
    }).settle()
}

/// The context in which the continuation of a step is compiled once a
/// payload is deferred: a layer of its own under the context of the step,
/// below which as many flows may be entered as the target declares.
pub open spec fn then_context(ctx: ContextView) -> ContextView {
    ContextView {
        label: None,
        args: None,
        budget: ctx.root().spec_budget(),
        parent: ParentView::Parent(Box::new(ctx)),
    }
}

/// What has to be done first to run `station` on `payload`.
pub open spec fn started(station: Station, payload: Package) -> RequestView {
    match station {
        Station::Described { base, then, ctx } => RequestView::Execute {
            station: *base,
            payload,
            after: AfterOutcome::Base { then, ctx },
        },
        Station::Steps { first, next } => RequestView::Execute {
            station: *first,
            payload,
            after: AfterOutcome::First { next, flow: false },
        },
        Station::FlowSteps { first, next } => RequestView::Execute {
            station: *first,
            payload,
            after: AfterOutcome::First { next, flow: true },
        },
        Station::Chain { first, next } => RequestView::Execute {
            station: *first,
            payload,
            after: AfterOutcome::ChainFirst { next },
        },
        Station::Concat { name, inner, ctx } => RequestView::Run {
            run: run_of(seq![Work { data: payload, work: inner }]),
            after_run: AfterRun::Concat { name, ctx },
        },
        _ => RequestView::Perform { station, payload },
    }
}

/// Whether `r` is what follows the outcome of the work of a step: the
/// failure of the executor as it is; the outcomes as they are where none is
/// deferred or the step has no continuation; else the run that routes the
/// deferred payloads into the continuation, compiled in the context of the
/// step, or the failure of that compilation.
pub open spec fn base_resumed(
    then: Option<Arc<WorkType>>,
    ctx: Context,
    outcome: Outcome<Package>,
    r: RequestView,
) -> bool {
    match outcome {
        Err(message) => r == RequestView::Done(Err(message@)),
        Ok(ret) => if thens_of(ret@).len() > 0 && then is Some {
            match compiled_work(*then->0, then_context(ctx@)) {
                Err(e) => r == RequestView::Done(Err(error_text(e))),
                Ok(compiled) => exists|station: Station|
                    station@ == compiled && r == (RequestView::Run {
                        run: run_and_of(ret@, station),
                        after_run: AfterRun::Results,
                    }),
            }
        } else {
            r == RequestView::Done(Ok(ret@))
        },
    }
}

/// What follows the outcome of the first part of a chain.
pub open spec fn first_resumed(next: Station, flow: bool, outcome: Outcome<Package>) -> RequestView {
    match outcome {
        Err(message) => RequestView::Done(Err(message@)),
        Ok(pack) => if !flow {
            RequestView::Run { run: run_chain_of(pack@, next), after_run: AfterRun::Results }
        } else if thens_of(pack@).len() > 0 {
            RequestView::Done(Err(not_chain()))
        } else {
            RequestView::Run { run: flow_run_of(pack@, next), after_run: AfterRun::Results }
        },
    }
}

/// What follows the outcome of the executor of a chained unit.
pub open spec fn chain_resumed(next: Station, outcome: Outcome<Package>) -> RequestView {
    match outcome {
        Err(message) => RequestView::Done(Err(message@)),
        Ok(pack) => RequestView::Run {
            run: chain_run_of(pack@, next),
            after_run: AfterRun::ResultsAndThens,
        },
    }
}

/// What follows a run that was driven to the end.
pub open spec fn run_resumed(after: AfterRun, run: FixpointView<Package>) -> RequestView {
    match after {
        AfterRun::Results => RequestView::Done(Ok(as_results(run.output))),
        AfterRun::ResultsAndThens => RequestView::Done(
            Ok(as_results(run.output) + as_thens(run.thens)),
        ),
        AfterRun::Concat { name, ctx } => if failures_of(run.output).len() > 0 {
            RequestView::Done(Err(failed_part()))
        } else {
            RequestView::Read {
                packages: successes_of(run.output),
                name: interpolated(name@, ctx@.merged()),
            }
        },
    }
}

/// Each result as an outcome.
pub fn into_results<V>(results: Vec<CrawlResult<V>>) -> (r: Vec<WorkOutput<V>>)
    ensures
        r@ == as_results(results@),
{
    let mut out: Vec<WorkOutput<V>> = Vec::new();
    let ghost all = results@;
    for m in it: results
        invariant
            it.seq() == all,
            out@ == as_results(all.take(it.index() as int)),
    {
        proof {
            let i = it.index() as int;
            assert(as_results(all.take(i + 1)) == as_results(all.take(i)).push(
                WorkOutput::Result(all[i]),
            ));
        }
        out.push(WorkOutput::Result(m));
    }
    proof {
        assert(all.take(all.len() as int) == all);
    }
    out
}

/// Each payload as a deferred outcome.
pub fn into_thens<V>(payloads: Vec<V>) -> (r: Vec<WorkOutput<V>>)
    ensures
        r@ == as_thens(payloads@),
{
    let mut out: Vec<WorkOutput<V>> = Vec::new();
    let ghost all = payloads@;
    for m in it: payloads
        invariant
            it.seq() == all,
            out@ == as_thens(all.take(it.index() as int)),
    {
        proof {
            let i = it.index() as int;
            assert(as_thens(all.take(i + 1)) == as_thens(all.take(i)).push(
                WorkOutput::Then(all[i]),
            ));
        }
        out.push(WorkOutput::Then(m));
    }
    proof {
        assert(all.take(all.len() as int) == all);
    }
    out
}

impl Request {
    /// What has to be done first to run `station` on `payload`.
    pub fn start(station: &Arc<Station>, payload: Package) -> (r: Request)
        ensures
            r@ == started(**station, payload),
            r matches Request::Run { run, after_run } ==> run.limit == 4,
    {
        match &**station {
            Station::Described { base, then, ctx } => {
                let then = match then {
                    Some(t) => Some(share(t)),
                    None => None,
                };
                Request::Execute {
                    station: share(base),
                    payload,
                    after: AfterOutcome::Base { then, ctx: ctx.clone() },
                }
            },
            Station::Steps { first, next } => Request::Execute {
                station: share(first),
                payload,
                after: AfterOutcome::First { next: share(next), flow: false },
            },
            Station::FlowSteps { first, next } => Request::Execute {
                station: share(first),
                payload,
                after: AfterOutcome::First { next: share(next), flow: true },
            },
            Station::Chain { first, next } => Request::Execute {
                station: share(first),
                payload,
                after: AfterOutcome::ChainFirst { next: share(next) },
            },
            Station::Concat { name, inner, ctx } => {
                let mut units: Vec<Work<Package>> = Vec::new();
                units.push(Work::shared(payload, share(inner)));
                assert(units@ == seq![Work { data: payload, work: *inner }]);
                Request::Run {
                    run: Worker::new().run(units),
                    after_run: AfterRun::Concat { name: name.clone(), ctx: ctx.clone() },
                }
            },
            _ => Request::Perform { station: share(station), payload },
        }
    }
}

impl AfterOutcome {
    /// What follows from the outcome of the part that was run.
    pub fn resume(self, outcome: Outcome<Package>) -> (r: Request)
        ensures
            match self {
                AfterOutcome::Base { then, ctx } => base_resumed(then, ctx, outcome, r@),
                AfterOutcome::First { next, flow } => r@ == first_resumed(*next, flow, outcome),
                AfterOutcome::ChainFirst { next } => r@ == chain_resumed(*next, outcome),
            },
            r matches Request::Run { run, after_run } ==> run.limit == 4,
    {
        let pack = match outcome {
            Ok(pack) => pack,
            Err(message) => {
                return Request::Done(Err(message));
            },
        };
        match self {
            AfterOutcome::Base { then, ctx } => {
                let work = match then {
                    Some(work) => work,
                    None => {
                        return Request::Done(Ok(pack));
                    },
                };
                if !defers(&pack) {
                    return Request::Done(Ok(pack));
                }
                let inner = Context::with_budget(
                    ParentOrRoot::Parent(ctx.clone()),
                    None,
                    None,
                    ctx.root().inner.target.d.flows.len(),
                );
                assert(inner@ == then_context(ctx@));
                match work.request_station(&inner) {
                    Ok(station) => Request::Run {
                        run: Worker::new().run_and(pack, Arc::new(station)),
                        after_run: AfterRun::Results,
                    },
                    Err(e) => Request::Done(Err(e.message())),
                }
            },
            AfterOutcome::First { next, flow } => {
                if !flow {
                    return Request::Run {
                        run: Worker::new().run_chain(pack, next),
                        after_run: AfterRun::Results,
                    };
                }
                if defers(&pack) {
                    return Request::Done(Err(String::from_str("not chain")));
                }
                let mut output: Vec<CrawlResult<Package>> = Vec::new();
                let mut units: Vec<Work<Package>> = Vec::new();
                let ghost all = pack@;
                for p in it: pack
                    invariant
                        it.seq() == all,
                        output@ == failures_of(results_of(all.take(it.index() as int))),
                        units@ == flow_units(all.take(it.index() as int), *next),
                {
                    proof {
                        let i = it.index() as int;
                        assert(all.take(i + 1).drop_last() == all.take(i));
                        assert(all.take(i + 1).last() == all[i]);
                        if let WorkOutput::Result(res) = all[i] {
                            assert(results_of(all.take(i + 1)).drop_last() == results_of(
                                all.take(i),
                            ));
                        }
                    }
                    match p {
                        WorkOutput::Result(Ok(o)) => units.push(Work::shared(o, share(&next))),
                        WorkOutput::Result(Err(e)) => output.push(Err(e)),
                        WorkOutput::Work(e) => units.push(e.chain_shared(share(&next))),
                        WorkOutput::Then(_) => {},
                    }
                }
                proof {
                    assert(all.take(all.len() as int) == all);
                }
                Request::Run {
                    run: Fixpoint {
                        output,
                        thens: Vec::new(),
                        pending: units,
                        rule: Rule::Refuse,
                        tail: Tail::Nothing,
                        limit: Worker::new().limit,
                    },
                    after_run: AfterRun::Results,
                }
            },
            AfterOutcome::ChainFirst { next } => {
                let (output, pending, thens) = Worker::split(pack);
                let mut run = Fixpoint {
                    output,
                    thens,
                    pending,
                    rule: Rule::Refuse,
                    tail: Tail::Feed(next),
                    limit: Worker::new().limit,
                };
                run.settle();
                Request::Run { run, after_run: AfterRun::ResultsAndThens }
            },
        }
    }
}

impl AfterRun {
    /// What follows from the run that was driven to the end.
    pub fn resume(self, run: Fixpoint<Package>) -> (r: Request)
        ensures
            r@ == run_resumed(self, run@),
    {
        match self {
            AfterRun::Results => Request::Done(Ok(into_results(run.output))),
            AfterRun::ResultsAndThens => {
                let mut out = into_results(run.output);
                let mut thens = into_thens(run.thens);
                out.append(&mut thens);
                Request::Done(Ok(out))
            },
            AfterRun::Concat { name, ctx } => {
                let mut packages: Vec<Package> = Vec::new();
                let mut failed = false;
                let ghost all = run.output@;
                for m in it: run.output
                    invariant
                        it.seq() == all,
                        packages@ == successes_of(all.take(it.index() as int)),
                        failed == (failures_of(all.take(it.index() as int)).len() > 0),
                {
                    proof {
                        let i = it.index() as int;
                        assert(all.take(i + 1).drop_last() == all.take(i));
                        assert(all.take(i + 1).last() == all[i]);
                    }
                    match m {
                        Ok(p) => packages.push(p),
                        Err(_) => {
                            failed = true;
                        },
                    }
                }
                proof {
                    assert(all.take(all.len() as int) == all);
                }
                if failed {
                    return Request::Done(
                        Err(String::from_str("cannot concatenate a failed result")),
                    );
                }
                let name = ctx.interpolate(name.as_str()).unwrap();
                Request::Read { packages, after_read: AfterRead { name } }
            },
        }
    }
}

impl AfterRead {
    /// The outcome of a concatenation: one result, the package of the given
    /// bytes, one part after the other, under the name.
    pub fn resume(self, contents: Vec<Vec<u8>>) -> (r: Request)
        ensures
            r matches Request::Done(Ok(list)) && list@.len() == 1 && (list@[0] matches WorkOutput::Result(
                Ok(p),
            ) && p@ == (PackageView {
                name: self.name@,
                content: ContentView::Bytes(joined(contents@)),
            })),
    {
        let bytes = concat_bytes(&contents);
        let package = Package { name: self.name, content: Content::Bytes(bytes) };
        let mut list: Vec<WorkOutput<Package>> = Vec::new();
        list.push(WorkOutput::Result(Ok(package)));
        Request::Done(Ok(list))
    }
}

/// Each payload as a success.
pub open spec fn successes(payloads: Seq<Package>) -> Seq<CrawlResult<Package>> {
    payloads.map_values(|p: Package| Ok::<Package, CrawlError>(p))
}

/// What the work of a step yields on one call when it pages: one result
/// and, unless the call is the last one, one deferred payload.
pub open spec fn page(result: Package, deferred: Option<Package>) -> Seq<WorkOutput<Package>> {
    match deferred {
        Some(t) => seq![WorkOutput::Result(Ok(result)), WorkOutput::Then(t)],
        None => seq![WorkOutput::Result(Ok(result))],
    }
}

/// What the execution of a step comes to whose continuation is a flow of
/// that step itself, when its work pages through `results`: called for the
/// first time it yields `results[0]` and defers `thens[0]`, which the
/// continuation, compiled to `stations[0]`, takes up in the same way with
/// the rest; called for the last result it defers nothing.
pub open spec fn paged(
    results: Seq<Package>,
    thens: Seq<Package>,
    stations: Seq<Station>,
) -> RequestView
    decreases results.len(),
{
    if results.len() <= 1 || thens.len() == 0 || stations.len() == 0 {
        RequestView::Done(Ok(page(results[0], None)))
    } else {
        match paged(results.skip(1), thens.skip(1), stations.skip(1)) {
            RequestView::Done(Ok(inner)) => run_resumed(
                AfterRun::Results,
                run_and_of(page(results[0], Some(thens[0])), stations[0]).take(inner),
            ),
            other => other,
        }
    }
}

/// What follows the work of a step that pages is what [`paged`] is made
/// of: the one result as it is after the last call, and before that the run
/// that routes the deferred payload into the continuation.
pub proof fn lemma_paging_step_resumes(
    then: Option<Arc<WorkType>>,
    ctx: Context,
    outcome: Outcome<Package>,
    result: Package,
    deferred: Option<Package>,
    station: Station,
)
    requires
        outcome matches Ok(ret) && ret@ == page(result, deferred),
        deferred is Some ==> then is Some && compiled_work(*then->0, then_context(ctx@)) == Ok::<
            _,
            crate::error::ErrorKindView,
        >(station@),
    ensures
        base_resumed(
            then,
            ctx,
            outcome,
            match deferred {
                None => RequestView::Done(Ok(page(result, None))),
                Some(t) => RequestView::Run {
                    run: run_and_of(page(result, deferred), station),
                    after_run: AfterRun::Results,
                },
            },
        ),
{
    lemma_page(result, deferred);
}

/// What a page holds: its result, its deferred payload if it has one, and
/// no new unit.
pub proof fn lemma_page(result: Package, deferred: Option<Package>)
    ensures
        results_of(page(result, deferred)) == seq![Ok::<Package, CrawlError>(result)],
        works_of(page(result, deferred)) == Seq::<Work<Package>>::empty(),
        thens_of(page(result, deferred)) == (match deferred {
            Some(t) => seq![t],
            None => Seq::empty(),
        }),
{
    let first = seq![WorkOutput::<Package>::Result(Ok(result))];
    lemma_single_entry(WorkOutput::<Package>::Result(Ok(result)));
    match deferred {
        Some(t) => {
            let second = seq![WorkOutput::<Package>::Then(t)];
            lemma_single_entry(WorkOutput::<Package>::Then(t));
            assert(page(result, deferred) == first + second);
            lemma_results_of_concat(first, second);
            lemma_works_of_concat(first, second);
            lemma_thens_of_concat(first, second);
            assert(seq![Ok::<Package, CrawlError>(result)] + Seq::<CrawlResult<Package>>::empty()
                == seq![Ok::<Package, CrawlError>(result)]);
            assert(Seq::<Work<Package>>::empty() + Seq::<Work<Package>>::empty() == Seq::<
                Work<Package>,
            >::empty());
            assert(Seq::<Package>::empty() + seq![t] == seq![t]);
        },
        None => {},
    }
}

/// One level of paging: the run that routes the deferred payload into the
/// continuation has exactly one unit pending, that payload bound to the
/// continuation; once that unit has come to the results `inner`, the run is
/// over, with the result of this level followed by `inner`.
pub proof fn lemma_paging_round(
    result: Package,
    deferred: Package,
    station: Station,
    inner: Seq<CrawlResult<Package>>,
)
    ensures
        run_and_of(page(result, Some(deferred)), station).pending == seq![
            Work { data: deferred, work: Arc::new(station) },
        ],
        run_and_of(page(result, Some(deferred)), station).rule is Refuse,
        run_and_of(page(result, Some(deferred)), station).take(as_results(inner)).done(),
        run_and_of(page(result, Some(deferred)), station).take(as_results(inner)).output == seq![
            Ok::<Package, CrawlError>(result),
        ] + inner,
{
    lemma_page(result, Some(deferred));
    lemma_only_results(inner);
    assert(bound_to(seq![deferred], station) == seq![
        Work { data: deferred, work: Arc::new(station) },
    ]);
}

/// A step whose continuation is a flow of that step itself, and whose work
/// stops deferring after `results.len()` calls, comes to an end with
/// exactly that many results: the result of each call, in the order of the
/// calls, each a success. Nothing bounds the number of calls; a work that
/// never stops deferring never lets the execution end.
pub proof fn lemma_self_referential_flow_ends(
    results: Seq<Package>,
    thens: Seq<Package>,
    stations: Seq<Station>,
)
    requires
        results.len() >= 1,
        thens.len() + 1 >= results.len(),
        stations.len() + 1 >= results.len(),
    ensures
        paged(results, thens, stations) == RequestView::Done(Ok(as_results(successes(results)))),
        as_results(successes(results)).len() == results.len(),
    decreases results.len(),
{
    if results.len() <= 1 || thens.len() == 0 || stations.len() == 0 {
        assert(results.len() == 1);
        assert(as_results(successes(results)) == page(results[0], None));
    } else {
        let rest = results.skip(1);
        lemma_self_referential_flow_ends(rest, thens.skip(1), stations.skip(1));
        lemma_paging_round(results[0], thens[0], stations[0], successes(rest));
        assert(seq![Ok::<Package, CrawlError>(results[0])] + successes(rest) == successes(results));
    }
}

} // verus!
