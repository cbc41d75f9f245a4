use crawler::error::{CrawlError, CrawlErrorKind, CrawlResult};
use crawler::execution::{into_results, into_thens};
use crawler::station::Station;
use crawler::work::{defers, Fixpoint, Outcome, Rule, Tail, Work, WorkOutput, Worker};
use std::sync::Arc;

fn run_plain<V>(mut run: Fixpoint<V>, leaf: &dyn Fn(u64, V) -> Outcome<V>) -> Fixpoint<V> {
    while !run.is_done() {
        let units = run.take_pending();
        let outcomes: Vec<Outcome<V>> = units
            .into_iter()
            .map(|w| match &*w.work {
                Station::External(id) => leaf(*id, w.data),
                other => panic!("unexpected station {:?}", other),
            })
            .collect();
        assert!(run.accepts(&outcomes), "cannot chain");
        run.absorb(outcomes);
    }
    run
}

fn ok(s: &str) -> WorkOutput<String> {
    WorkOutput::Result(Ok(s.to_string()))
}

fn values(results: &[CrawlResult<String>]) -> Vec<String> {
    results
        .iter()
        .map(|r| match r {
            Ok(v) => v.clone(),
            Err(e) => e.message(),
        })
        .collect()
}

#[test]
fn work_it_works() {
    let work = Work::new(String::from("Value, baby!"), Station::External(1));
    let worker = Worker::new();
    let run = run_plain(worker.run(vec![work]), &|_, val| Ok(vec![WorkOutput::Result(Ok(val))]));
    assert!(run.is_done());
    assert!(run.pending.is_empty());
    let ret = run.finish();
    assert_eq!(ret.len(), 1);
    assert!(ret[0].is_ok());
    assert_eq!(ret[0].as_ref().unwrap(), "Value, baby!");
}

#[test]
fn more_work() {
    let work = Work::new(String::from("Value, baby!"), Station::External(1));
    let worker = Worker::new();
    let leaf = |id: u64, val: String| -> Outcome<String> {
        match id {
            1 => Ok(vec![
                WorkOutput::Result(Ok(val)),
                WorkOutput::Work(Work::new(String::from("Value, baby 2!"), Station::External(2))),
            ]),
            _ => Ok(vec![WorkOutput::Result(Ok(val))]),
        }
    };
    let ret = run_plain(worker.run(vec![work]), &leaf).finish();
    assert_eq!(ret.len(), 2);
    assert_eq!(values(&ret), vec!["Value, baby!", "Value, baby 2!"]);
}

#[test]
fn one_result_and_n_units_give_n_plus_one_results() {
    for n in [0usize, 1, 3, 9] {
        let leaf = move |id: u64, val: String| -> Outcome<String> {
            match id {
                1 => {
                    let mut out = vec![WorkOutput::Result(Ok(val))];
                    for i in 0..n {
                        // every second unit resolves through one more unit
                        let next = if i % 2 == 0 { 2 } else { 3 };
                        out.push(WorkOutput::Work(Work::new(format!("unit {}", i), Station::External(next))));
                    }
                    Ok(out)
                }
                3 => Ok(vec![WorkOutput::Work(Work::new(val, Station::External(2)))]),
                _ => Ok(vec![WorkOutput::Result(Ok(val))]),
            }
        };
        let run = run_plain(
            Worker::new().run(vec![Work::new("first".to_string(), Station::External(1))]),
            &leaf,
        );
        assert!(run.pending.is_empty());
        assert_eq!(run.finish().len(), n + 1);
    }
}

#[test]
fn run_of_nothing_is_done() {
    let run: Fixpoint<String> = Worker::new().run(vec![]);
    assert!(run.is_done());
    assert!(run.finish().is_empty());
}

#[test]
fn worker_limit() {
    assert_eq!(Worker::new().limit, 4);
    assert_eq!(Worker::with_limit(9).limit, 9);
    let run: Fixpoint<String> = Worker::with_limit(9).run(vec![]);
    assert_eq!(run.limit, 9);
    let next = Arc::new(Station::External(2));
    assert_eq!(Worker::new().run_and(deferring_input(), next.clone()).limit, 4);
    assert_eq!(Worker::with_limit(2).run_chain(deferring_input(), next).limit, 2);
    assert_eq!(Station::WriteDirectory { path: "a".to_string(), root: "/".to_string() }.limit(), Some(1));
    assert_eq!(Station::External(1).limit(), None);
}

#[test]
fn split_keeps_each_kind_in_order() {
    let input = vec![
        ok("a"),
        WorkOutput::Then("t1".to_string()),
        WorkOutput::Work(Work::new("w1".to_string(), Station::External(5))),
        WorkOutput::Result(Err(CrawlError::not_found("x"))),
        WorkOutput::Then("t2".to_string()),
        ok("b"),
    ];
    let (results, works, thens) = Worker::split(input);
    assert_eq!(values(&results), vec!["a", "CrawlError<NotFound(x)>", "b"]);
    assert_eq!(works.len(), 1);
    assert_eq!(works[0].data, "w1");
    assert!(matches!(*works[0].work, Station::External(5)));
    assert_eq!(thens, vec!["t1", "t2"]);
    let (results, works, thens) = Worker::split(Vec::<WorkOutput<String>>::new());
    assert!(results.is_empty() && works.is_empty() && thens.is_empty());
}

#[test]
fn split_accepting_turns_deferred_into_successes() {
    let input = vec![
        WorkOutput::Then("t1".to_string()),
        ok("a"),
        WorkOutput::Work(Work::new("w1".to_string(), Station::External(5))),
        WorkOutput::Then("t2".to_string()),
    ];
    let (results, works) = Worker::split_accepting(input);
    assert_eq!(values(&results), vec!["t1", "a", "t2"]);
    assert_eq!(works.len(), 1);
}

#[test]
fn split2_binds_successes_and_keeps_failures() {
    let input: Vec<CrawlResult<String>> = vec![
        Ok("a".to_string()),
        Err(CrawlError::new(CrawlErrorKind::Unknown)),
        Ok("b".to_string()),
        Err(CrawlError::conveyor("late".to_string())),
    ];
    let (failures, works) = Worker::split2(input, Arc::new(Station::External(8)));
    assert_eq!(values(&failures), vec!["CrawlError<Unknown>", "CrawlError<Conveyor(late)>"]);
    let data: Vec<&str> = works.iter().map(|w| w.data.as_str()).collect();
    assert_eq!(data, vec!["a", "b"]);
    assert!(works.iter().all(|w| matches!(*w.work, Station::External(8))));
}

#[test]
fn bind_binds_every_payload() {
    let works = Worker::bind(vec![1u8, 2, 3], &Arc::new(Station::External(4)));
    let data: Vec<u8> = works.iter().map(|w| w.data).collect();
    assert_eq!(data, vec![1, 2, 3]);
    assert!(works.iter().all(|w| matches!(*w.work, Station::External(4))));
}

#[test]
fn flatten_turns_executor_failures_into_results() {
    let outcomes: Vec<Outcome<String>> = vec![
        Ok(vec![ok("a"), WorkOutput::Then("t".to_string())]),
        Err("boom".to_string()),
        Ok(vec![]),
        Ok(vec![ok("b")]),
    ];
    let flat = Worker::flatten(outcomes);
    assert_eq!(flat.len(), 4);
    assert!(matches!(&flat[0], WorkOutput::Result(Ok(v)) if v == "a"));
    assert!(matches!(&flat[1], WorkOutput::Then(v) if v == "t"));
    assert!(matches!(&flat[2], WorkOutput::Result(Err(e))
        if matches!(&e.kind, CrawlErrorKind::Conveyor(m) if m == "boom")));
    assert!(matches!(&flat[3], WorkOutput::Result(Ok(v)) if v == "b"));
}

#[test]
fn run_refuses_a_deferred_payload() {
    let run: Fixpoint<String> =
        Worker::new().run(vec![Work::new("a".to_string(), Station::External(1))]);
    assert!(!run.accepts(&vec![Ok(vec![ok("x"), WorkOutput::Then("t".to_string())])]));
    assert!(!run.accepts(&vec![Err("e".to_string()), Ok(vec![WorkOutput::Then("t".to_string())])]));
    assert!(run.accepts(&vec![Ok(vec![ok("x")]), Err("e".to_string())]));
    assert!(run.accepts(&vec![]));
    assert!(defers(&vec![ok("x"), WorkOutput::Then("t".to_string())]));
    assert!(!defers(&vec![ok("x")]));
    assert!(!defers(&Vec::<WorkOutput<String>>::new()));
}

// Stations: 1 yields a result and defers a payload; 2 is the continuation.
fn deferring(id: u64, val: String) -> Outcome<String> {
    match id {
        1 => Ok(vec![
            WorkOutput::Result(Ok(format!("{}-done", val))),
            WorkOutput::Then(format!("{}-later", val)),
        ]),
        2 => Ok(vec![WorkOutput::Result(Ok(format!("{}+", val)))]),
        _ => Err(format!("no station {}", id)),
    }
}

fn deferring_input() -> Vec<WorkOutput<String>> {
    vec![
        ok("r0"),
        WorkOutput::Then("t0".to_string()),
        WorkOutput::Result(Err(CrawlError::not_found("e0"))),
        WorkOutput::Work(Work::new("w".to_string(), Station::External(1))),
    ]
}

#[test]
fn run_and_routes_deferred_payloads_into_the_continuation() {
    let next = Arc::new(Station::External(2));
    let run = Worker::new().run_and(deferring_input(), next);
    assert!(matches!(run.rule, Rule::Collect));
    assert!(matches!(run.tail, Tail::Continue(_)));
    let out = run_plain(run, &deferring).finish();
    assert_eq!(
        values(&out),
        vec!["r0", "CrawlError<NotFound(e0)>", "w-done", "t0+", "w-later+"]
    );
}

#[test]
fn run_chain_feeds_survivors_into_the_next_step() {
    let next = Arc::new(Station::External(2));
    let run = Worker::new().run_chain(deferring_input(), next);
    assert!(matches!(run.rule, Rule::Accept));
    let out = run_plain(run, &deferring).finish();
    assert_eq!(
        values(&out),
        vec!["CrawlError<NotFound(e0)>", "r0+", "w-done+", "w-later+"]
    );
}

#[test]
fn run_and_without_units_settles_at_once() {
    let next = Arc::new(Station::External(2));
    let run = Worker::new().run_and(vec![WorkOutput::Then("t".to_string())], next);
    assert!(matches!(run.rule, Rule::Refuse));
    assert!(matches!(run.tail, Tail::Nothing));
    assert_eq!(run.pending.len(), 1);
    assert!(run.thens.is_empty());
    let out = run_plain(run, &deferring).finish();
    assert_eq!(values(&out), vec!["t+"]);
    let next = Arc::new(Station::External(2));
    let run: Fixpoint<String> = Worker::new().run_and(vec![], next);
    assert!(run.is_done());
}

#[test]
fn run_chain_without_survivors_is_done() {
    let next = Arc::new(Station::External(2));
    let input: Vec<WorkOutput<String>> =
        vec![WorkOutput::Result(Err(CrawlError::not_found("gone"))), WorkOutput::Then("dropped".to_string())];
    let run = Worker::new().run_chain(input, next);
    assert!(run.is_done());
    assert_eq!(values(&run.finish()), vec!["CrawlError<NotFound(gone)>"]);
}

#[test]
fn chained_unit_runs_next_on_every_result() {
    let unit = Work::new(7u32, Station::External(1)).chain(Station::External(2));
    assert_eq!(unit.data, 7);
    match &*unit.work {
        Station::Chain { first, next } => {
            assert!(matches!(**first, Station::External(1)));
            assert!(matches!(**next, Station::External(2)));
        }
        other => panic!("unexpected station {:?}", other),
    }
    let shared = Work::shared(1u32, Arc::new(Station::External(3)))
        .chain_shared(Arc::new(Station::External(4)));
    assert!(matches!(&*shared.work, Station::Chain { first, next }
        if matches!(**first, Station::External(3)) && matches!(**next, Station::External(4))));
}

#[test]
fn outcomes_of_results_and_payloads() {
    let out = into_results(vec![Ok(1u8), Err(CrawlError::new(CrawlErrorKind::Unknown))]);
    assert!(matches!(&out[0], WorkOutput::Result(Ok(1))));
    assert!(matches!(&out[1], WorkOutput::Result(Err(_))));
    let out = into_thens(vec![4u8, 5]);
    assert!(matches!(&out[0], WorkOutput::Then(4)));
    assert!(matches!(&out[1], WorkOutput::Then(5)));
    assert!(out[0].is_then());
    assert!(!ok("a").is_then());
}
