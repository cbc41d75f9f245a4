use crawler::crawler::{Crawler, CrawlerConfig};
use crawler::failure::ErrorKind;
use crawler::manifest::{Manifest, Package};
use crawler::paths::{join, join_slice, measure};
use crawler::queue::{createTaskQueue, Queue};
use crawler::task::{Task, Work};

#[test]
fn queue_is_first_in_first_out() {
    let mut q: Queue<u32> = Queue::new();
    assert_eq!(q.len(), 0);
    assert_eq!(q.pop(), None);
    q.push(1);
    q.push(2);
    q.push(3);
    assert_eq!(q.len(), 3);
    assert_eq!(q.pop(), Some(1));
    assert_eq!(q.pop(), Some(2));
    q.push(4);
    assert_eq!(q.pop(), Some(3));
    assert_eq!(q.pop(), Some(4));
    assert_eq!(q.pop(), None);
    assert_eq!(createTaskQueue().len(), 0);
}

#[test]
fn config_defaults_and_setters() {
    let mut cfg = CrawlerConfig::default();
    assert_eq!(
        (cfg.producers, cfg.consumers, cfg.workers, cfg.timeout, cfg.buffer_size),
        (1, 2, 4, 5000, 10)
    );
    assert_eq!(cfg.output, None);
    cfg.producers(3);
    cfg.consumers(5);
    cfg.workers(7);
    cfg.timeout(250);
    cfg.buffer_size(64);
    cfg.output("out.js");
    assert_eq!(
        (cfg.producers, cfg.consumers, cfg.workers, cfg.timeout, cfg.buffer_size),
        (3, 5, 7, 250, 64)
    );
    assert_eq!(cfg.output.as_deref(), Some("out.js"));
    cfg.producers(8).consumers(9).timeout(10);
    assert_eq!((cfg.producers, cfg.consumers, cfg.timeout, cfg.workers), (8, 9, 10, 7));
    let crawler = cfg.build();
    assert!(!crawler.running);
    assert!(crawler.queue.is_empty());
    assert_eq!(crawler.cfg.workers, 7);
}

#[test]
fn crawler_starts_once_and_only_with_tasks() {
    let mut crawler = Crawler::new();
    assert!(crawler.start().is_none());
    assert!(!crawler.running);
    let task = Task::new("/pkg", "https://example.com/a", Work::path("main.js")).unwrap();
    crawler.add(task.clone());
    let launch = crawler.start().unwrap();
    assert!(crawler.running);
    assert_eq!(launch.workers, 4);
    assert_eq!(launch.timeout, 5000);
    assert_eq!(launch.output, "");
    assert_eq!(launch.tasks, vec![task]);
    assert!(crawler.start().is_none());
    assert_eq!(crawler.queue.len(), 1);

    let mut cfg = CrawlerConfig::default();
    cfg.output("sink.js");
    cfg.workers(2);
    let mut crawler = cfg.build();
    crawler.add(Task::new("/pkg", "https://example.com/b", Work::path("b.js")).unwrap());
    let launch = crawler.start().unwrap();
    assert_eq!(launch.output, "sink.js");
    assert_eq!(launch.workers, 2);
}

#[test]
fn task_parses_its_url() {
    let mut task = Task::new("/pkg", "HTTP://Example.com", Work::path("main.js")).unwrap();
    assert_eq!(task.url(), "http://example.com/");
    assert_eq!(task.root(), "/pkg");
    assert_eq!(task.work(), &Work::Path("main.js".to_string()));
    assert_eq!((task.id() >> 76) & 0xf, 4);
    let e = Task::new("/pkg", "not a url", Work::path("main.js")).unwrap_err();
    assert!(matches!(e.kind(), ErrorKind::Url(url::ParseError::RelativeUrlWithoutBase)));
    assert!(!task.set_url("::"));
    assert_eq!(task.url(), "http://example.com/");
    assert!(task.set_url("https://example.org/x y"));
    assert_eq!(task.url(), "https://example.org/x%20y");
    task.set_root("/other".to_string()).set_work(Work::path("b.js"));
    assert_eq!(task.root(), "/other");
    let id = task.id();
    let parse = task.into_parse_task("<html/>");
    assert_eq!(parse.html, "<html/>");
    assert_eq!(parse.id, id);
    assert_eq!(parse.url, "https://example.org/x%20y");
    assert_eq!(parse.work, Work::Path("b.js".to_string()));
    assert_eq!(parse.root, "/other");
}

#[test]
fn join_resolves_leading_dots() {
    assert_eq!(join("/a/b", "c.js").unwrap(), "/a/b/c.js");
    assert_eq!(join("/a/b", "./c.js").unwrap(), "/a/b/c.js");
    assert_eq!(join("/a/b", "././c.js").unwrap(), "/a/b/c.js");
    assert_eq!(join("/a/b", "c/../d").unwrap(), "/a/b/c/../d");
    // a leading `../` climbs, and what is left of it starts at the root
    assert_eq!(join("/a/b", "../c.js").unwrap(), "/c.js");
    let e = join("/", "../c.js").unwrap_err();
    assert!(matches!(e.kind(), ErrorKind::Msg(m) if m == "could not resolve"));
    let e = join("", "../c.js").unwrap_err();
    assert!(matches!(e.kind(), ErrorKind::Msg(m) if m == "could not resolve"));
}

#[test]
fn join_slice_joins_in_turn() {
    let parts = vec!["a".to_string(), "./b".to_string(), "c.js".to_string()];
    assert_eq!(join_slice("/r", &parts).unwrap(), "/r/a/b/c.js");
    assert_eq!(join_slice("/r", &vec![]).unwrap(), "/r");
    let parts = vec!["a".to_string(), "../x".to_string(), "../y".to_string(), "z".to_string()];
    assert_eq!(join_slice("r", &parts).unwrap(), "/y/z");
    let parts = vec!["x".to_string(), "../y".to_string(), "../../z".to_string()];
    assert_eq!(join_slice("/", &parts).unwrap(), "/../z");
    let parts = vec!["../x".to_string(), "y".to_string()];
    assert!(join_slice("/", &parts).is_err());
}

#[test]
fn measure_returns_what_the_closure_returns() {
    let (elapsed, value) = measure(|| 6 * 7);
    assert_eq!(value, 42);
    assert!(elapsed.as_secs() < 60);
}

#[test]
fn package_gives_its_task() {
    let package = Package {
        root: "/pkgs/one".to_string(),
        manifest: Manifest {
            name: "one".to_string(),
            url: "https://example.com".to_string(),
            main: "index.js".to_string(),
        },
    };
    assert_eq!(package.root(), "/pkgs/one");
    assert_eq!(package.manifest().name(), "one");
    assert_eq!(package.manifest().url(), "https://example.com");
    assert_eq!(package.manifest().main(), "index.js");
    assert_eq!(package.resolve_asset("img/a.png"), "/pkgs/one/img/a.png");
    assert_eq!(package.resolve_asset("/abs"), "/abs");
    let task = package.task().unwrap();
    assert_eq!(task.url(), "https://example.com/");
    assert_eq!(task.root(), "/pkgs/one");
    assert_eq!(task.work(), &Work::Path("index.js".to_string()));
    let broken = Package {
        root: "/p".to_string(),
        manifest: Manifest { name: "b".to_string(), url: "nope".to_string(), main: "m".to_string() },
    };
    assert!(broken.task().is_err());
}
