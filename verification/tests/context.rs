use crawler::context::{Context, ParentOrRoot, RootContext};
use crawler::descriptions::{TargetDescription, WorkDescription, WorkTargetDescription};
use crawler::environment::{Environment, EnvironmentBuilder};
use crawler::target::Target;
use crawler::value::{Args, Value};
use crawler::worktypes::{PassThrough, WorkType};

fn args_of(pairs: &[(&str, &str)]) -> Args {
    let mut args = Args::new();
    for (k, v) in pairs {
        args.insert(k.to_string(), Value::text(v));
    }
    args
}

fn root_with(args: Args) -> RootContext {
    let description = TargetDescription {
        name: "T".to_string(),
        work: WorkTargetDescription {
            input: Value::text("in"),
            steps: vec![WorkDescription {
                name: None,
                work: Box::new(WorkType::PassThrough(PassThrough { service: Some(1) })),
                then: None,
            }],
        },
        flows: vec![],
    };
    let target = Target::new("/t", Environment::build("/cwd").build(), description);
    RootContext::new(target, args)
}

fn text(v: Option<&Value>) -> Option<String> {
    v.map(|v| v.rendered().to_string())
}

#[test]
fn child_override_shadows_ancestors() {
    let root = root_with(args_of(&[("K", "root"), ("only_root", "r")]));
    let parent = root.child("parent", Some(args_of(&[("K", "parent"), ("mid", "m")])));
    let child = parent.child("child", Some(args_of(&[("K", "child")])));
    assert_eq!(text(child.get("K")), Some("child".to_string()));
    assert_eq!(text(parent.get("K")), Some("parent".to_string()));
    assert_eq!(text(child.get("mid")), Some("m".to_string()));
    assert_eq!(text(child.get("only_root")), Some("r".to_string()));
    assert_eq!(text(child.get("nowhere")), None);
    let merged = child.all_args();
    assert_eq!(text(merged.get("K")), Some("child".to_string()));
    assert_eq!(text(merged.get("mid")), Some("m".to_string()));
    assert_eq!(text(merged.get("only_root")), Some("r".to_string()));
    assert!(!merged.contains_key("nowhere"));
}

#[test]
fn omitted_key_falls_through_to_nearest_ancestor() {
    let root = root_with(args_of(&[("K", "root")]));
    let a = root.child("a", Some(args_of(&[("K", "a")])));
    let b = a.child("b", None);
    let c = b.child("c", Some(args_of(&[("other", "x")])));
    assert_eq!(text(c.get("K")), Some("a".to_string()));
    assert_eq!(text(c.all_args().get("K")), Some("a".to_string()));
    assert_eq!(c.interpolate("${K}/${other}").unwrap(), "a/x");
}

#[test]
fn args_are_merged_down_the_chain() {
    let root = root_with(args_of(&[("K", "root"), ("R", "r")]));
    let a = root.child("a", Some(args_of(&[("A", "1"), ("K", "a")])));
    let b = a.child("b", None);
    let c = b.child("c", Some(args_of(&[("C", "3")])));
    for ctx in [&b, &c] {
        let args = ctx.args();
        assert_eq!(text(args.get("A")), Some("1".to_string()));
        assert_eq!(text(args.get("K")), Some("a".to_string()));
        assert_eq!(text(args.get("R")), Some("r".to_string()));
        assert_eq!(text(args.get("nowhere")), None);
    }
    assert_eq!(text(c.args().get("C")), Some("3".to_string()));
    assert!(!b.args().contains_key("C"));
    let plain = root.child("p", None);
    assert_eq!(text(plain.args().get("K")), Some("root".to_string()));
    assert!(root.args().contains_key("K"));
}

#[test]
fn interpolate_with_adds_overrides() {
    let root = root_with(args_of(&[("a", "1"), ("b", "2")]));
    let ctx = root.child("c", None);
    assert_eq!(ctx.interpolate_with("${a}${b}${c}", &args_of(&[("b", "x"), ("c", "y")])), "1xy");
    assert_eq!(root.interpolate("${a}-${z}").unwrap(), "1-${z}");
}

#[test]
fn child_hangs_from_its_parent() {
    let root = root_with(Args::new());
    let a = root.child("a", None);
    assert!(a.parent().is_none());
    let b = a.child("b", None);
    assert_eq!(b.parent().unwrap().id(), a.id());
    assert_eq!(b.root().id(), root.id());
    assert_eq!(b.label(), Some("b"));
    assert_ne!(a.id(), b.id());
    let fresh = Context::new(ParentOrRoot::Parent(b.clone()), None, None);
    assert_eq!(fresh.label(), None);
    assert_eq!(fresh.scope(), None);
    assert_eq!(fresh.parent().unwrap().id(), b.id());
}

#[test]
fn identities_are_random_uuids() {
    let root = root_with(Args::new());
    let a = root.child("Flow(x)", None);
    for id in [root.id(), a.id()] {
        assert_eq!((id >> 76) & 0xf, 4);
        assert_eq!((id >> 62) & 0x3, 2);
    }
    let scope = a.scope().unwrap();
    assert!(scope.starts_with("Flow(x)("));
    assert!(scope.ends_with(")"));
    let inner = &scope["Flow(x)(".len()..scope.len() - 1];
    assert_eq!(inner.len(), 36);
    assert_eq!(inner.replace('-', "").len(), 32);
    assert_eq!(u128::from_str_radix(&inner.replace('-', ""), 16).unwrap(), a.id());
    let expected: String = format!("{:032x}", a.id())
        .chars()
        .enumerate()
        .flat_map(|(i, c)| {
            if i == 8 || i == 12 || i == 16 || i == 20 { vec!['-', c] } else { vec![c] }
        })
        .collect();
    assert_eq!(inner, expected);
}

#[test]
fn environment_keeps_what_it_was_built_from() {
    let env = Environment::build("/work").build();
    assert_eq!(env.cwd(), "/work");
    assert!(!env.vars().contains_key("x"));
    let env = EnvironmentBuilder::new("/other".to_string()).build();
    assert_eq!(env.cwd(), "/other");
    assert!(env.args.is_empty());
}

#[test]
fn target_keeps_path_and_description() {
    let root = root_with(Args::new());
    let target = root.target();
    assert_eq!(target.path(), "/t");
    assert_eq!(target.description().name, "T");
    assert_eq!(target.env().cwd(), "/cwd");
    let copy = target.clone();
    assert_eq!(copy.path(), "/t");
}
