//! Units of work, their outcomes, and the scheduler that runs them to the
//! end.
use vstd::prelude::*;
use vstd::string::*;
use std::sync::Arc;
use crate::error::{CrawlError, CrawlErrorKind, CrawlResult};
use crate::shared::share;
use crate::station::Station;

verus! {

/// What an executor can yield for a payload.
#[derive(Debug)]
pub enum WorkOutput<V> {
    /// A terminal result: a payload, or a failure.
    Result(CrawlResult<V>),
    /// A new unit to be scheduled in a later round.
    Work(Work<V>),
    /// A payload to be routed into the continuation that the call site
    /// supplies.
    Then(V),
}

/// A payload bound to the executor that is to run on it.
#[derive(Debug)]
pub struct Work<V> {
    pub data: V,
    pub work: Arc<Station>,
}

/// The terminal results among `entries`, in their order.
pub open spec fn results_of<V>(entries: Seq<WorkOutput<V>>) -> Seq<CrawlResult<V>>
    decreases entries.len(),
{
    if entries.len() == 0 {
        Seq::empty()
    } else {
        let rest = results_of(entries.drop_last());
        match entries.last() {
            WorkOutput::Result(r) => rest.push(r),
            _ => rest,
        }
    }
}

/// The new units among `entries`, in their order.
pub open spec fn works_of<V>(entries: Seq<WorkOutput<V>>) -> Seq<Work<V>>
    decreases entries.len(),
{
    if entries.len() == 0 {
        Seq::empty()
    } else {
        let rest = works_of(entries.drop_last());
        match entries.last() {
            WorkOutput::Work(w) => rest.push(w),
            _ => rest,
        }
    }
}

/// The deferred payloads among `entries`, in their order.
pub open spec fn thens_of<V>(entries: Seq<WorkOutput<V>>) -> Seq<V>
    decreases entries.len(),
{
    if entries.len() == 0 {
        Seq::empty()
    } else {
        let rest = thens_of(entries.drop_last());
        match entries.last() {
            WorkOutput::Then(v) => rest.push(v),
            _ => rest,
        }
    }
}

/// The terminal results among `entries` together with the deferred payloads,
/// each of these as a success, in their order.
pub open spec fn survivors_of<V>(entries: Seq<WorkOutput<V>>) -> Seq<CrawlResult<V>>
    decreases entries.len(),
{
    if entries.len() == 0 {
        Seq::empty()
    } else {
        let rest = survivors_of(entries.drop_last());
        match entries.last() {
            WorkOutput::Result(r) => rest.push(r),
            WorkOutput::Then(v) => rest.push(Ok(v)),
            WorkOutput::Work(_) => rest,
        }
    }
}

/// The failures among `results`, in their order.
pub open spec fn failures_of<V>(results: Seq<CrawlResult<V>>) -> Seq<CrawlResult<V>>
    decreases results.len(),
{
    if results.len() == 0 {
        Seq::empty()
    } else {
        let rest = failures_of(results.drop_last());
        match results.last() {
            Err(e) => rest.push(Err(e)),
            Ok(_) => rest,
        }
    }
}

/// The payloads of the successes among `results`, in their order.
pub open spec fn successes_of<V>(results: Seq<CrawlResult<V>>) -> Seq<V>
    decreases results.len(),
{
    if results.len() == 0 {
        Seq::empty()
    } else {
        let rest = successes_of(results.drop_last());
        match results.last() {
            Ok(v) => rest.push(v),
            Err(_) => rest,
        }
    }
}

/// Each of `payloads` bound to the executor `work`.
pub open spec fn bound_to<V>(payloads: Seq<V>, work: Station) -> Seq<Work<V>> {
    payloads.map_values(|v: V| Work { data: v, work: Arc::new(work) })
}

/// Each of `results` as an outcome.
pub open spec fn as_results<V>(results: Seq<CrawlResult<V>>) -> Seq<WorkOutput<V>> {
    results.map_values(|r: CrawlResult<V>| WorkOutput::Result(r))
}

/// Each of `works` as an outcome.
pub open spec fn as_works<V>(works: Seq<Work<V>>) -> Seq<WorkOutput<V>> {
    works.map_values(|w: Work<V>| WorkOutput::Work(w))
}

/// Each of `payloads` as a deferred outcome.
pub open spec fn as_thens<V>(payloads: Seq<V>) -> Seq<WorkOutput<V>> {
    payloads.map_values(|v: V| WorkOutput::Then(v))
}

/// What the execution of one unit came to: the outcomes that its executor
/// yielded, or the message of the failure of the executor itself.
pub type Outcome<V> = Result<Vec<WorkOutput<V>>, String>;

/// The terminal result that stands for the failure of an executor.
pub open spec fn executor_failure<V>(message: String) -> WorkOutput<V> {
    WorkOutput::Result(Err(CrawlError { kind: CrawlErrorKind::Conveyor(message) }))
}

/// What one execution contributes to a round: the outcomes that the executor
/// yielded, or one terminal failure where the executor itself failed.
pub open spec fn yielded<V>(outcome: Outcome<V>) -> Seq<WorkOutput<V>> {
    match outcome {
        Ok(list) => list@,
        Err(message) => seq![executor_failure(message)],
    }
}

/// All that the executions of one round contribute, in their order.
pub open spec fn entries<V>(outcomes: Seq<Outcome<V>>) -> Seq<WorkOutput<V>>
    decreases outcomes.len(),
{
    if outcomes.len() == 0 {
        Seq::empty()
    } else {
        entries(outcomes.drop_last()) + yielded(outcomes.last())
    }
}

impl<V> WorkOutput<V> {
    pub fn is_then(&self) -> (r: bool)
        ensures
            r == (*self is Then),
    {
        match self {
            WorkOutput::Then(_) => true,
            _ => false,
        }
    }
}

impl<V> Work<V> {
    /// The unit of `data` under the executor `work`.
    pub fn new(data: V, work: Station) -> (r: Work<V>)
        ensures
            r.data == data,
            *r.work == work,
    {
        Work { data, work: Arc::new(work) }
    }

    /// The unit of `data` under the shared executor `work`.
    pub fn shared(data: V, work: Arc<Station>) -> (r: Work<V>)
        ensures
            r.data == data,
            r.work == work,
    {
        Work { data, work }
    }

    /// The unit of the same payload whose executor runs this unit's executor
    /// to the end and then `next` on every successful result.
    pub fn chain(self, next: Station) -> (r: Work<V>)
        ensures
            r.data == self.data,
            *r.work == (Station::Chain { first: self.work, next: Arc::new(next) }),
    {
        Work { data: self.data, work: Arc::new(Station::Chain { first: self.work, next: Arc::new(next) }) }
    }

    /// As [`Work::chain`], with a shared executor.
    pub fn chain_shared(self, next: Arc<Station>) -> (r: Work<V>)
        ensures
            r.data == self.data,
            *r.work == (Station::Chain { first: self.work, next }),
    {
        Work { data: self.data, work: Arc::new(Station::Chain { first: self.work, next }) }
    }
}

/// Where a round sends the payloads that it defers.
#[derive(Debug, Clone, Copy, PartialEq, Eq, Structural)]
pub enum Rule {
    /// Nowhere: there is no continuation, and no outcome may defer.
    Refuse,
    /// To the side, for the continuation that comes after the rounds.
    Collect,
    /// Among the results, each as a success.
    Accept,
}

/// What is left to do once no round yields a new unit.
#[derive(Debug)]
pub enum Tail {
    /// Nothing: the results are final.
    Nothing,
    /// The deferred payloads continue as units of this executor.
    Continue(Arc<Station>),
    /// The payloads that survived continue as units of this executor.
    Feed(Arc<Station>),
}

/// A run in progress: the results so far, the deferred payloads set aside,
/// the units that the next round has to execute, where a round sends what
/// it defers, and what is left to do after the rounds. Between two
/// operations a run is settled: it has units pending, or it is done. A run
/// also carries how many of its units may be executed at a time.
#[derive(Debug)]
pub struct Fixpoint<V> {
    pub output: Vec<CrawlResult<V>>,
    pub thens: Vec<V>,
    pub pending: Vec<Work<V>>,
    pub rule: Rule,
    pub tail: Tail,
    pub limit: usize,
}

/// The mathematical model of a [`Fixpoint`].
pub struct FixpointView<V> {
    pub output: Seq<CrawlResult<V>>,
    pub thens: Seq<V>,
    pub pending: Seq<Work<V>>,
    pub rule: Rule,
    pub tail: Tail,
}

impl<P> View for Fixpoint<P> {
    type V = FixpointView<P>;

    open spec fn view(&self) -> FixpointView<P> {
        FixpointView {
            output: self.output@,
            thens: self.thens@,
            pending: self.pending@,
            rule: self.rule,
            tail: self.tail,
        }
    }
}

impl<V> FixpointView<V> {
    /// Whether the run is over: no unit is pending and nothing is left to do.
    pub open spec fn done(self) -> bool {
        self.pending.len() == 0 && self.tail is Nothing
    }

    /// Whether a round of these executions can be taken in: without a
    /// continuation, none of them may defer a payload.
    pub open spec fn accepts(self, outcomes: Seq<Outcome<V>>) -> bool {
        self.rule is Refuse ==> thens_of(entries(outcomes)).len() == 0
    }

    /// The run once what is left to do has been done, if no unit is pending.
    /// The units that this leaves pending run without a continuation.
    pub open spec fn settle(self) -> FixpointView<V> {
        if self.pending.len() > 0 {
            self
        } else {
            match self.tail {
                Tail::Nothing => self,
                Tail::Continue(work) => FixpointView {
                    output: self.output,
                    thens: Seq::empty(),
                    pending: bound_to(self.thens, *work),
                    rule: Rule::Refuse,
                    tail: Tail::Nothing,
                },
                Tail::Feed(work) => FixpointView {
                    output: failures_of(self.output),
                    thens: self.thens,
                    pending: bound_to(successes_of(self.output), *work),
                    rule: Rule::Refuse,
                    tail: Tail::Nothing,
                },
            }
        }
    }

    /// The run after a round that contributed `round`: its results join the
    /// results so far, its new units are pending, and its deferred payloads
    /// go where the rest of the run sends them.
    pub open spec fn take(self, round: Seq<WorkOutput<V>>) -> FixpointView<V> {
        (FixpointView {
            output: self.output + (if self.rule is Accept {
                survivors_of(round)
            } else {
                results_of(round)
            }),
            thens: if self.rule is Collect {
                self.thens + thens_of(round)
            } else {
                self.thens
            },
            pending: works_of(round),
            rule: self.rule,
            tail: self.tail,
        }).settle()
    }

    /// The run after one round of executions: it takes what they
    /// contribute, in their order.
    pub open spec fn absorb(self, outcomes: Seq<Outcome<V>>) -> FixpointView<V> {
        self.take(entries(outcomes))
    }
}

/// The run that [`Worker::run`] starts.
pub open spec fn run_of<V>(input: Seq<Work<V>>) -> FixpointView<V> {
    FixpointView {
        output: Seq::empty(),
        thens: Seq::empty(),
        pending: input,
        rule: Rule::Refuse,
        tail: Tail::Nothing,
    }
}

/// The run that [`Worker::run_and`] starts.
pub open spec fn run_and_of<V>(input: Seq<WorkOutput<V>>, work: Station) -> FixpointView<V> {
    (FixpointView {
        output: results_of(input),
        thens: thens_of(input),
        pending: works_of(input),
        rule: Rule::Collect,
        tail: Tail::Continue(Arc::new(work)),
    }).settle()
}

/// The run that [`Worker::run_chain`] starts.
pub open spec fn run_chain_of<V>(input: Seq<WorkOutput<V>>, work: Station) -> FixpointView<V> {
    (FixpointView {
        output: results_of(input),
        thens: Seq::empty(),
        pending: works_of(input),
        rule: Rule::Accept,
        tail: Tail::Feed(Arc::new(work)),
    }).settle()
}

impl<V> Fixpoint<V> {
    /// Whether the run is over.
    pub fn is_done(&self) -> (r: bool)
        ensures
            r == self@.done(),
    {
        match self.tail {
            Tail::Nothing => self.pending.len() == 0,
            _ => false,
        }
    }

    /// Hands out the units that the next round has to execute.
    pub fn take_pending(&mut self) -> (r: Vec<Work<V>>)
        ensures
            r == old(self).pending,
            final(self).pending@ == Seq::<Work<V>>::empty(),
            final(self).output == old(self).output,
            final(self).thens == old(self).thens,
            final(self).rule == old(self).rule,
            final(self).tail == old(self).tail,
            final(self).limit == old(self).limit,
    {
        let mut taken: Vec<Work<V>> = Vec::new();
        std::mem::swap(&mut self.pending, &mut taken);
        taken
    }

    /// Whether a round of these executions can be taken in.
    pub fn accepts(&self, outcomes: &Vec<Outcome<V>>) -> (r: bool)
        ensures
            r == self@.accepts(outcomes@),
    {
        match self.rule {
            Rule::Refuse => {},
            _ => {
                return true;
            },
        }
        let mut i: usize = 0;
        assert(outcomes@.take(0) == Seq::<Outcome<V>>::empty());
        while i < outcomes.len()
            invariant
                i <= outcomes.len(),
                self.rule is Refuse,
                thens_of(entries(outcomes@.take(i as int))).len() == 0,
            decreases outcomes.len() - i,
        {
            proof {
                assert(outcomes@.take(i + 1).drop_last() == outcomes@.take(i as int));
                assert(outcomes@.take(i + 1).last() == outcomes@[i as int]);
                assert(entries(outcomes@.take(i + 1)) == entries(outcomes@.take(i as int))
                    + yielded(outcomes@[i as int]));
                lemma_thens_of_concat(
                    entries(outcomes@.take(i as int)),
                    yielded(outcomes@[i as int]),
                );
            }
            match &outcomes[i] {
                Ok(list) => {
                    assert(yielded(outcomes@[i as int]) == list@);
                    if defers(list) {
                        proof {
                            lemma_entries_prefix(outcomes@, i + 1);
                            lemma_thens_of_concat(
                                entries(outcomes@.take(i + 1)),
                                entries(outcomes@.skip(i + 1)),
                            );
                        }
                        return false;
                    }
                },
                Err(_) => {
                    let ghost one = yielded(outcomes@[i as int]);
                    assert(one.len() == 1);
                    assert(one.drop_last() == Seq::<WorkOutput<V>>::empty());
                    assert(thens_of(one.drop_last()).len() == 0);
                    assert(one.last() is Result);
                    assert(thens_of(one).len() == 0);
                },
            }
            i += 1;
        }
        assert(outcomes@.take(i as int) == outcomes@);
        true
    }

    /// Does what is left to do, if no unit is pending.
    pub fn settle(&mut self)
        ensures
            final(self)@ == old(self)@.settle(),
            final(self).limit == old(self).limit,
    {
        if self.pending.len() == 0 {
            let mut tail = Tail::Nothing;
            std::mem::swap(&mut self.tail, &mut tail);
            match tail {
                Tail::Nothing => {},
                Tail::Continue(work) => {
                    let mut thens: Vec<V> = Vec::new();
                    std::mem::swap(&mut self.thens, &mut thens);
                    self.pending = Worker::bind(thens, &work);
                    self.rule = Rule::Refuse;
                },
                Tail::Feed(work) => {
                    let mut output: Vec<CrawlResult<V>> = Vec::new();
                    std::mem::swap(&mut self.output, &mut output);
                    let (failures, works) = Worker::split2(output, work);
                    self.output = failures;
                    self.pending = works;
                    self.rule = Rule::Refuse;
                },
            }
        }
    }

    /// Takes in the executions of one round.
    pub fn absorb(&mut self, outcomes: Vec<Outcome<V>>)
        requires
            old(self)@.accepts(outcomes@),
        ensures
            final(self)@ == old(self)@.absorb(outcomes@),
            final(self).limit == old(self).limit,
    {
        let flat = Worker::flatten(outcomes);
        match self.rule {
            Rule::Accept => {
                let (mut survivors, works) = Worker::split_accepting(flat);
                self.output.append(&mut survivors);
                self.pending = works;
            },
            Rule::Collect => {
                let (mut results, works, mut thens) = Worker::split(flat);
                self.output.append(&mut results);
                self.thens.append(&mut thens);
                self.pending = works;
            },
            Rule::Refuse => {
                let (mut results, works, _) = Worker::split(flat);
                self.output.append(&mut results);
                self.pending = works;
            },
        }
        self.settle();
    }

    /// The results of the run.
    pub fn finish(self) -> (r: Vec<CrawlResult<V>>)
        ensures
            r == self.output,
    {
        self.output
    }
}

/// Whether one of `list` defers a payload.
pub fn defers<V>(list: &Vec<WorkOutput<V>>) -> (r: bool)
    ensures
        r == (thens_of(list@).len() > 0),
{
    let mut j: usize = 0;
    assert(list@.take(0) == Seq::<WorkOutput<V>>::empty());
    while j < list.len()
        invariant
            j <= list.len(),
            thens_of(list@.take(j as int)).len() == 0,
        decreases list.len() - j,
    {
        proof {
            assert(list@.take(j + 1).drop_last() == list@.take(j as int));
            assert(list@.take(j + 1).last() == list@[j as int]);
        }
        if list[j].is_then() {
            proof {
                lemma_thens_of_prefix(list@, j + 1);
            }
            return true;
        }
        j += 1;
    }
    assert(list@.take(j as int) == list@);
    false
}

/// The deferred payloads of two runs of outcomes, one after the other.
pub proof fn lemma_thens_of_concat<V>(a: Seq<WorkOutput<V>>, b: Seq<WorkOutput<V>>)
    ensures
        thens_of(a + b) == thens_of(a) + thens_of(b),
    decreases b.len(),
{
    if b.len() == 0 {
        assert(a + b == a);
    } else {
        assert((a + b).drop_last() == a + b.drop_last());
        lemma_thens_of_concat(a, b.drop_last());
    }
}

/// A beginning that ends in a deferred payload defers at least one.
pub proof fn lemma_thens_of_prefix<V>(all: Seq<WorkOutput<V>>, n: int)
    requires
        0 < n <= all.len(),
        all[n - 1] is Then,
    ensures
        thens_of(all).len() > 0,
{
    assert(all.take(n).drop_last() == all.take(n - 1));
    assert(thens_of(all.take(n)).len() > 0);
    assert(all == all.take(n) + all.skip(n));
    lemma_thens_of_concat(all.take(n), all.skip(n));
}

/// The contributions of a round are those of its beginning followed by
/// those of its rest.
pub proof fn lemma_entries_prefix<V>(outcomes: Seq<Outcome<V>>, n: int)
    requires
        0 <= n <= outcomes.len(),
    ensures
        entries(outcomes) == entries(outcomes.take(n)) + entries(outcomes.skip(n)),
    decreases outcomes.len() - n,
{
    if n == outcomes.len() {
        assert(outcomes.take(n) == outcomes);
        assert(outcomes.skip(n) == Seq::<Outcome<V>>::empty());
        assert(entries(outcomes) + Seq::<WorkOutput<V>>::empty() == entries(outcomes));
    } else {
        lemma_entries_prefix(outcomes, n + 1);
        assert(outcomes.take(n + 1).drop_last() == outcomes.take(n));
        assert(outcomes.take(n + 1).last() == outcomes[n]);
        lemma_entries_cons(outcomes.skip(n));
        assert(outcomes.skip(n).skip(1) == outcomes.skip(n + 1));
        assert(entries(outcomes.take(n)) + (yielded(outcomes[n]) + entries(outcomes.skip(n + 1)))
            == (entries(outcomes.take(n)) + yielded(outcomes[n])) + entries(outcomes.skip(n + 1)));
    }
}

/// The contributions of a round begin with those of its first execution.
pub proof fn lemma_entries_cons<V>(outcomes: Seq<Outcome<V>>)
    requires
        outcomes.len() > 0,
    ensures
        entries(outcomes) == yielded(outcomes[0]) + entries(outcomes.skip(1)),
    decreases outcomes.len(),
{
    if outcomes.len() == 1 {
        assert(outcomes.drop_last() == Seq::<Outcome<V>>::empty());
        assert(outcomes.skip(1) == Seq::<Outcome<V>>::empty());
        assert(Seq::<WorkOutput<V>>::empty() + yielded(outcomes[0]) == yielded(outcomes[0])
            + Seq::<WorkOutput<V>>::empty());
    } else {
        lemma_entries_cons(outcomes.drop_last());
        assert(outcomes.drop_last().skip(1) == outcomes.skip(1).drop_last());
        assert(outcomes.skip(1).last() == outcomes.last());
        assert((yielded(outcomes[0]) + entries(outcomes.skip(1).drop_last())) + yielded(
            outcomes.last(),
        ) == yielded(outcomes[0]) + (entries(outcomes.skip(1).drop_last()) + yielded(
            outcomes.last(),
        )));
    }
}

/// What a single outcome holds.
pub proof fn lemma_single_entry<V>(entry: WorkOutput<V>)
    ensures
        results_of(seq![entry]) == (match entry {
            WorkOutput::Result(r) => seq![r],
            _ => Seq::empty(),
        }),
        works_of(seq![entry]) == (match entry {
            WorkOutput::Work(w) => seq![w],
            _ => Seq::empty(),
        }),
        thens_of(seq![entry]) == (match entry {
            WorkOutput::Then(v) => seq![v],
            _ => Seq::empty(),
        }),
{
    reveal_with_fuel(results_of, 2);
    reveal_with_fuel(works_of, 2);
    reveal_with_fuel(thens_of, 2);
    let one = seq![entry];
    assert(one.drop_last() == Seq::<WorkOutput<V>>::empty());
    assert(one.last() == entry);
    match entry {
        WorkOutput::Result(r) => {
            assert(Seq::<CrawlResult<V>>::empty().push(r) == seq![r]);
        },
        WorkOutput::Work(w) => {
            assert(Seq::<Work<V>>::empty().push(w) == seq![w]);
        },
        WorkOutput::Then(v) => {
            assert(Seq::<V>::empty().push(v) == seq![v]);
        },
    }
}

/// A round of one execution contributes what that execution yielded.
pub proof fn lemma_single_outcome<V>(outcome: Outcome<V>)
    ensures
        entries(seq![outcome]) == yielded(outcome),
{
    reveal_with_fuel(entries, 2);
    let round = seq![outcome];
    assert(round.drop_last() == Seq::<Outcome<V>>::empty());
    assert(round.last() == outcome);
    assert(Seq::<WorkOutput<V>>::empty() + yielded(outcome) == yielded(outcome));
}

/// The terminal results of two runs of outcomes, one after the other.
pub proof fn lemma_results_of_concat<V>(a: Seq<WorkOutput<V>>, b: Seq<WorkOutput<V>>)
    ensures
        results_of(a + b) == results_of(a) + results_of(b),
    decreases b.len(),
{
    if b.len() == 0 {
        assert(a + b == a);
    } else {
        assert((a + b).drop_last() == a + b.drop_last());
        lemma_results_of_concat(a, b.drop_last());
    }
}

/// The new units of two runs of outcomes, one after the other.
pub proof fn lemma_works_of_concat<V>(a: Seq<WorkOutput<V>>, b: Seq<WorkOutput<V>>)
    ensures
        works_of(a + b) == works_of(a) + works_of(b),
    decreases b.len(),
{
    if b.len() == 0 {
        assert(a + b == a);
    } else {
        assert((a + b).drop_last() == a + b.drop_last());
        lemma_works_of_concat(a, b.drop_last());
    }
}

/// Outcomes that are all terminal results hold these results and nothing
/// else.
pub proof fn lemma_only_results<V>(results: Seq<CrawlResult<V>>)
    ensures
        results_of(as_results(results)) == results,
        works_of(as_results(results)) == Seq::<Work<V>>::empty(),
        thens_of(as_results(results)) == Seq::<V>::empty(),
    decreases results.len(),
{
    if results.len() > 0 {
        lemma_only_results(results.drop_last());
        assert(as_results(results).drop_last() == as_results(results.drop_last()));
        assert(results.drop_last().push(results.last()) == results);
    }
}

/// Outcomes that are all new units hold these units and nothing else.
pub proof fn lemma_only_works<V>(works: Seq<Work<V>>)
    ensures
        works_of(as_works(works)) == works,
        results_of(as_works(works)) == Seq::<CrawlResult<V>>::empty(),
        thens_of(as_works(works)) == Seq::<V>::empty(),
    decreases works.len(),
{
    if works.len() > 0 {
        lemma_only_works(works.drop_last());
        assert(as_works(works).drop_last() == as_works(works.drop_last()));
        assert(works.drop_last().push(works.last()) == works);
    }
}

/// Every round adds its terminal results to the results so far and leaves
/// its new units pending: a run without a continuation ends exactly when a
/// round yields no new unit, and loses no result on the way.
pub proof fn lemma_run_round<V>(state: FixpointView<V>, outcomes: Seq<Outcome<V>>)
    requires
        state.rule is Refuse,
        state.tail is Nothing,
    ensures
        state.absorb(outcomes).output == state.output + results_of(entries(outcomes)),
        state.absorb(outcomes).pending == works_of(entries(outcomes)),
        state.absorb(outcomes).rule is Refuse,
        state.absorb(outcomes).tail is Nothing,
        state.absorb(outcomes).done() <==> works_of(entries(outcomes)).len() == 0,
{
}

/// One unit whose executor yields a single terminal result: the run is over
/// after one round, with exactly that result and nothing pending.
pub proof fn lemma_run_single_result<V>(
    unit: Work<V>,
    outcome: Outcome<V>,
    result: CrawlResult<V>,
)
    requires
        yielded(outcome) == seq![WorkOutput::Result(result)],
    ensures
        run_of(seq![unit]).pending == seq![unit],
        run_of(seq![unit]).absorb(seq![outcome]).done(),
        run_of(seq![unit]).absorb(seq![outcome]).output == seq![result],
{
    lemma_single_outcome(outcome);
    lemma_single_entry(WorkOutput::Result(result));
    assert(Seq::<CrawlResult<V>>::empty() + seq![result] == seq![result]);
}

/// A round in which every executor yields one terminal result yields as
/// many results as it has executions, and no new unit.
pub proof fn lemma_round_of_results<V>(outcomes: Seq<Outcome<V>>)
    requires
        forall|i: int|
            0 <= i < outcomes.len() ==> (#[trigger] yielded(outcomes[i])).len() == 1 && yielded(
                outcomes[i],
            )[0] is Result,
    ensures
        results_of(entries(outcomes)).len() == outcomes.len(),
        works_of(entries(outcomes)).len() == 0,
        thens_of(entries(outcomes)).len() == 0,
    decreases outcomes.len(),
{
    if outcomes.len() > 0 {
        let before = outcomes.drop_last();
        assert forall|i: int| 0 <= i < before.len() implies (#[trigger] yielded(before[i])).len()
            == 1 && yielded(before[i])[0] is Result by {
            assert(0 <= i < outcomes.len());
            assert(before[i] == outcomes[i]);
        }
        lemma_round_of_results(before);
        let one = yielded(outcomes.last());
        assert(one.len() == 1 && one[0] is Result);
        assert(one == seq![one[0]]);
        lemma_single_entry(one[0]);
        lemma_results_of_concat(entries(before), one);
        lemma_works_of_concat(entries(before), one);
        lemma_thens_of_concat(entries(before), one);
    }
}

/// A round in which every executor yields one outcome, a terminal result or
/// a new unit, yields as many results and new units together as it has
/// executions.
pub proof fn lemma_round_of_single_outcomes<V>(outcomes: Seq<Outcome<V>>)
    requires
        forall|i: int|
            0 <= i < outcomes.len() ==> (#[trigger] yielded(outcomes[i])).len() == 1 && !(yielded(
                outcomes[i],
            )[0] is Then),
    ensures
        results_of(entries(outcomes)).len() + works_of(entries(outcomes)).len() == outcomes.len(),
        thens_of(entries(outcomes)).len() == 0,
    decreases outcomes.len(),
{
    if outcomes.len() > 0 {
        let before = outcomes.drop_last();
        assert forall|i: int| 0 <= i < before.len() implies (#[trigger] yielded(before[i])).len()
            == 1 && !(yielded(before[i])[0] is Then) by {
            assert(0 <= i < outcomes.len());
            assert(before[i] == outcomes[i]);
        }
        lemma_round_of_single_outcomes(before);
        let one = yielded(outcomes.last());
        assert(one.len() == 1 && !(one[0] is Then));
        assert(one == seq![one[0]]);
        lemma_single_entry(one[0]);
        lemma_results_of_concat(entries(before), one);
        lemma_works_of_concat(entries(before), one);
        lemma_thens_of_concat(entries(before), one);
    }
}

/// While every executor yields exactly one outcome, a terminal result or a
/// new unit that stands for it, a run without a continuation keeps count:
/// its results and its pending units together stay as many as they were.
/// So it ends, if it ends, with as many results as it had results and units
/// to begin with.
pub proof fn lemma_run_keeps_count<V>(state: FixpointView<V>, outcomes: Seq<Outcome<V>>)
    requires
        state.rule is Refuse,
        state.tail is Nothing,
        outcomes.len() == state.pending.len(),
        forall|i: int|
            0 <= i < outcomes.len() ==> (#[trigger] yielded(outcomes[i])).len() == 1 && !(yielded(
                outcomes[i],
            )[0] is Then),
    ensures
        state.accepts(outcomes),
        state.absorb(outcomes).output.len() + state.absorb(outcomes).pending.len()
            == state.output.len() + state.pending.len(),
        state.absorb(outcomes).rule is Refuse,
        state.absorb(outcomes).tail is Nothing,
{
    lemma_round_of_single_outcomes(outcomes);
    lemma_run_round(state, outcomes);
}

/// One unit whose executor yields one terminal result and `works.len()` new
/// units, each of which yields one terminal result: the run is over after
/// two rounds, with one result more than there were new units and nothing
/// pending.
pub proof fn lemma_run_result_and_works<V>(
    unit: Work<V>,
    first: Outcome<V>,
    result: CrawlResult<V>,
    works: Seq<Work<V>>,
    later: Seq<Outcome<V>>,
)
    requires
        yielded(first) == seq![WorkOutput::Result(result)] + as_works(works),
        later.len() == works.len(),
        forall|i: int|
            0 <= i < later.len() ==> (#[trigger] yielded(later[i])).len() == 1 && yielded(
                later[i],
            )[0] is Result,
    ensures
        run_of(seq![unit]).absorb(seq![first]).output == seq![result],
        run_of(seq![unit]).absorb(seq![first]).pending == works,
        run_of(seq![unit]).absorb(seq![first]).absorb(later).done(),
        run_of(seq![unit]).absorb(seq![first]).absorb(later).output.len() == works.len() + 1,
{
    lemma_single_outcome(first);
    let head = seq![WorkOutput::<V>::Result(result)];
    lemma_single_entry(WorkOutput::<V>::Result(result));
    lemma_only_works(works);
    lemma_results_of_concat(head, as_works(works));
    lemma_works_of_concat(head, as_works(works));
    assert(Seq::<CrawlResult<V>>::empty() + seq![result] == seq![result]);
    assert(seq![result] + Seq::<CrawlResult<V>>::empty() == seq![result]);
    assert(Seq::<Work<V>>::empty() + works == works);
    let after = run_of(seq![unit]).absorb(seq![first]);
    lemma_run_round(run_of(seq![unit]), seq![first]);
    lemma_round_of_results(later);
    lemma_run_round(after, later);
}

/// The scheduler: runs units round by round, at most `limit` of them at a
/// time, until no round yields a new unit. It starts the runs; the
/// embedding program executes the units of each round and hands back what
/// they came to.
pub struct Worker {
    pub limit: usize,
}

impl Worker {
    /// A scheduler that runs at most four units at a time.
    pub fn new() -> (r: Worker)
        ensures
            r.limit == 4,
    {
        Worker { limit: 4 }
    }

    /// A scheduler that runs at most `limit` units at a time.
    pub fn with_limit(limit: usize) -> (r: Worker)
        ensures
            r.limit == limit,
    {
        Worker { limit }
    }

    /// Splits outcomes into terminal results, new units and deferred
    /// payloads, each kind in the order in which it came.
    pub fn split<V>(input: Vec<WorkOutput<V>>) -> (r: (Vec<CrawlResult<V>>, Vec<Work<V>>, Vec<V>))
        ensures
            r.0@ == results_of(input@),
            r.1@ == works_of(input@),
            r.2@ == thens_of(input@),
    {
        let mut output: Vec<CrawlResult<V>> = Vec::new();
        let mut works: Vec<Work<V>> = Vec::new();
        let mut thens: Vec<V> = Vec::new();
        let ghost all = input@;
        for m in it: input
            invariant
                it.seq() == all,
                output@ == results_of(all.take(it.index() as int)),
                works@ == works_of(all.take(it.index() as int)),
                thens@ == thens_of(all.take(it.index() as int)),
        {
            proof {
                let i = it.index() as int;
                assert(all.take(i + 1).drop_last() == all.take(i));
                assert(all.take(i + 1).last() == all[i]);
            }
            match m {
                WorkOutput::Work(w) => works.push(w),
                WorkOutput::Result(ret) => output.push(ret),
                WorkOutput::Then(ret) => thens.push(ret),
            }
        }
        proof {
            assert(all.take(all.len() as int) == all);
        }
        (output, works, thens)
    }

    /// Splits outcomes into those that survive, as results, and new units:
    /// a deferred payload survives as a success.
    pub fn split_accepting<V>(input: Vec<WorkOutput<V>>) -> (r: (Vec<CrawlResult<V>>, Vec<Work<V>>))
        ensures
            r.0@ == survivors_of(input@),
            r.1@ == works_of(input@),
    {
        let mut output: Vec<CrawlResult<V>> = Vec::new();
        let mut works: Vec<Work<V>> = Vec::new();
        let ghost all = input@;
        for m in it: input
            invariant
                it.seq() == all,
                output@ == survivors_of(all.take(it.index() as int)),
                works@ == works_of(all.take(it.index() as int)),
        {
            proof {
                let i = it.index() as int;
                assert(all.take(i + 1).drop_last() == all.take(i));
                assert(all.take(i + 1).last() == all[i]);
            }
            match m {
                WorkOutput::Work(w) => works.push(w),
                WorkOutput::Result(ret) => output.push(ret),
                WorkOutput::Then(ret) => output.push(Ok(ret)),
            }
        }
        proof {
            assert(all.take(all.len() as int) == all);
        }
        (output, works)
    }

    /// Binds each payload to the executor `work`.
    pub fn bind<V>(payloads: Vec<V>, work: &Arc<Station>) -> (r: Vec<Work<V>>)
        ensures
            r@ == bound_to(payloads@, **work),
    {
        let mut works: Vec<Work<V>> = Vec::new();
        let ghost all = payloads@;
        for v in it: payloads
            invariant
                it.seq() == all,
                works@ == bound_to(all.take(it.index() as int), **work),
        {
            proof {
                let i = it.index() as int;
                assert(bound_to(all.take(i + 1), **work) == bound_to(all.take(i), **work).push(
                    Work { data: all[i], work: Arc::new(**work) },
                ));
            }
            works.push(Work { data: v, work: share(work) });
        }
        proof {
            assert(all.take(all.len() as int) == all);
        }
        works
    }

    /// All that the executions of one round contribute, in their order: the
    /// outcomes that each executor yielded, and one terminal failure for each
    /// executor that failed.
    pub fn flatten<V>(outcomes: Vec<Outcome<V>>) -> (r: Vec<WorkOutput<V>>)
        ensures
            r@ == entries(outcomes@),
    {
        let mut flat: Vec<WorkOutput<V>> = Vec::new();
        let ghost all = outcomes@;
        for outcome in it: outcomes
            invariant
                it.seq() == all,
                flat@ == entries(all.take(it.index() as int)),
        {
            proof {
                let i = it.index() as int;
                assert(all.take(i + 1).drop_last() == all.take(i));
                assert(all.take(i + 1).last() == all[i]);
            }
            match outcome {
                Ok(list) => {
                    let mut list = list;
                    flat.append(&mut list);
                },
                Err(message) => {
                    flat.push(WorkOutput::Result(Err(CrawlError::conveyor(message))));
                },
            }
        }
        proof {
            assert(all.take(all.len() as int) == all);
        }
        flat
    }

    /// Starts running `input` to the end. Every outcome has to be a result
    /// or a new unit: there is no continuation for a deferred payload to go
    /// to.
    pub fn run<V>(&self, input: Vec<Work<V>>) -> (r: Fixpoint<V>)
        ensures
            r@ == run_of(input@),
            r.limit == self.limit,
    {
        Fixpoint {
            output: Vec::new(),
            thens: Vec::new(),
            pending: input,
            rule: Rule::Refuse,
            tail: Tail::Nothing,
            limit: self.limit,
        }
    }

    /// Starts running the units among `input` to the end, collecting every
    /// deferred payload on the way; these then continue as units of `work`,
    /// whose results join those of the first part.
    pub fn run_and<V>(&self, input: Vec<WorkOutput<V>>, work: Arc<Station>) -> (r: Fixpoint<V>)
        ensures
            r@ == run_and_of(input@, *work),
            r.limit == self.limit,
    {
        let (output, pending, thens) = Worker::split(input);
        let mut r = Fixpoint {
            output,
            thens,
            pending,
            rule: Rule::Collect,
            tail: Tail::Continue(work),
            limit: self.limit,
        };
        r.settle();
        r
    }

    /// Starts running the units among `input` to the end; a payload that is
    /// deferred on the way survives as a success, one that `input` itself
    /// defers is dropped. Every payload that survives then continues as a
    /// unit of `work`; the failures stay results.
    pub fn run_chain<V>(&self, input: Vec<WorkOutput<V>>, work: Arc<Station>) -> (r: Fixpoint<V>)
        ensures
            r@ == run_chain_of(input@, *work),
            r.limit == self.limit,
    {
        let (output, pending, _) = Worker::split(input);
        let mut r = Fixpoint {
            output,
            thens: Vec::new(),
            pending,
            rule: Rule::Accept,
            tail: Tail::Feed(work),
            limit: self.limit,
        };
        r.settle();
        r
    }

    /// Splits results into the failures, which stay results, and the units
    /// that bind each successful payload to the executor `work`.
    pub fn split2<V>(input: Vec<CrawlResult<V>>, work: Arc<Station>) -> (r: (
        Vec<CrawlResult<V>>,
        Vec<Work<V>>,
    ))
        ensures
            r.0@ == failures_of(input@),
            r.1@ == bound_to(successes_of(input@), *work),
    {
        let mut output: Vec<CrawlResult<V>> = Vec::new();
        let mut works: Vec<Work<V>> = Vec::new();
        let ghost all = input@;
        for m in it: input
            invariant
                it.seq() == all,
                output@ == failures_of(all.take(it.index() as int)),
                works@ == bound_to(successes_of(all.take(it.index() as int)), *work),
        {
            proof {
                let i = it.index() as int;
                assert(all.take(i + 1).drop_last() == all.take(i));
                assert(all.take(i + 1).last() == all[i]);
                let before = successes_of(all.take(i));
                if let Ok(v) = all[i] {
                    assert(bound_to(before.push(v), *work) == bound_to(before, *work).push(
                        Work { data: v, work: Arc::new(*work) },
                    ));
                }
            }
            match m {
                Ok(m) => works.push(Work { data: m, work: share(&work) }),
                Err(e) => output.push(Err(e)),
            }
        }
        proof {
            assert(all.take(all.len() as int) == all);
        }
        (output, works)
    }
}

} // verus!
