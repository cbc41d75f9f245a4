use crawler::context::RootContext;
use crawler::descriptions::{TargetDescription, WorkDescription, WorkTargetDescription};
use crawler::environment::Environment;
use crawler::error::{CrawlError, CrawlErrorKind};
use crawler::flows::Flows;
use crawler::package::{concat_bytes, Content, Package};
use crawler::repository::Engine;
use crawler::target::Target;
use crawler::value::{Args, Value};
use crawler::worktypes::{PassThrough, WorkType};
use std::sync::Arc;

#[test]
fn error_messages() {
    assert_eq!(CrawlError::new(CrawlErrorKind::Unknown).message(), "CrawlError<Unknown>");
    assert_eq!(
        CrawlError::new(CrawlErrorKind::Conveyor("boom".to_string())).message(),
        "CrawlError<Conveyor(boom)>"
    );
    assert_eq!(CrawlError::not_found("x/y").message(), "CrawlError<NotFound(x/y)>");
    assert_eq!(CrawlError::conveyor("late".to_string()).message(), "CrawlError<Conveyor(late)>");
    for kind in [
        CrawlErrorKind::Error("e".to_string()),
        CrawlErrorKind::Io("io".to_string()),
        CrawlErrorKind::InvalidDescriptionFile("/f".to_string()),
    ] {
        assert_eq!(CrawlError::new(kind).message(), "CrawlError<Unknown>");
    }
    let e: CrawlError = CrawlErrorKind::NotFound("n".to_string()).into();
    assert!(matches!(e.kind(), CrawlErrorKind::NotFound(n) if n == "n"));
    let copy = e.duplicate();
    assert_eq!(copy.message(), e.message());
}

#[test]
fn package_keeps_name_and_content() {
    let p = Package::new("a", Content::Bytes(vec![1]));
    assert_eq!(p.name(), "a");
    assert!(matches!(p.content(), Content::Bytes(b) if b == &vec![1u8]));
    let p = p.set_value(Content::Value(Value::text("v")));
    assert_eq!(p.name(), "a");
    assert!(matches!(p.content(), Content::Value(Value::Text(s)) if s == "v"));
    assert_eq!(concat_bytes(&vec![vec![1, 2], vec![], vec![3]]), vec![1, 2, 3]);
    assert_eq!(concat_bytes(&vec![]), Vec::<u8>::new());
}

fn target(name: &str, input: &str) -> Target {
    let description = TargetDescription {
        name: name.to_string(),
        work: WorkTargetDescription {
            input: Value::text(input),
            steps: vec![WorkDescription {
                name: None,
                work: Box::new(WorkType::PassThrough(PassThrough { service: Some(1) })),
                then: None,
            }],
        },
        flows: vec![],
    };
    Target::new("/t", Environment::build("/cwd").build(), description)
}

#[test]
fn engine_runs_the_first_target_of_a_name() {
    let mut engine = Engine::new(Environment::build("/cwd").build());
    assert_eq!(engine.find("a"), None);
    engine.add_target(target("a", "first"));
    engine.add_target(target("b", "other"));
    engine.add_target(target("a", "second"));
    assert_eq!(engine.find("a"), Some(0));
    assert_eq!(engine.find("b"), Some(1));
    assert_eq!(engine.find("c"), None);
    let run = engine.run("a", Args::new()).unwrap();
    assert_eq!(run.pending.len(), 1);
    assert_eq!(run.pending[0].data.name(), "a");
    assert!(matches!(&run.pending[0].data.content, Content::Value(Value::Text(s)) if s == "first"));
    assert!(!run.is_done());
}

#[test]
fn target_description_can_be_run_under_a_root() {
    let t = target("a", "${who}");
    let mut args = Args::new();
    args.insert("who".to_string(), Value::text("me"));
    let root = RootContext::new(t.clone(), args);
    let run = t.description().work.run(root).unwrap();
    assert_eq!(run.pending.len(), 1);
    assert!(matches!(&run.pending[0].data.content, Content::Value(Value::Text(s)) if s == "me"));
    let flows = Flows::new(Arc::new(TargetDescription {
        name: "f".to_string(),
        work: WorkTargetDescription { input: Value::text(""), steps: vec![] },
        flows: vec![],
    }));
    flows.request("anything");
    assert_eq!(flows.target.name, "f");
}
