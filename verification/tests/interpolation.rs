use crawler::text::{chars_of, replace_all, starts_with, str_eq, trim_start_all};
use crawler::utils::{interpolate, is_interpolated, substitute};
use crawler::value::{Args, Value};

fn args_of(pairs: &[(&str, &str)]) -> Args {
    let mut args = Args::new();
    for (k, v) in pairs {
        args.insert(k.to_string(), Value::text(v));
    }
    args
}

#[test]
fn lib_it_works() {
    assert_eq!(2 + 2, 4);
}

#[test]
fn interpolated() {
    assert!(!is_interpolated("Hello, World"));
    assert!(is_interpolated("Hello, ${World}"));

    assert_eq!(
        interpolate("Hello, ${toffe}!", &args_of(&[("toffe", "World")])),
        "Hello, World!"
    );

    assert_eq!(
        interpolate(
            "${ost} Hello, ${toffe}!",
            &args_of(&[("toffe", "World"), ("ost", "tapas")]),
        ),
        "tapas Hello, World!"
    );
}

#[test]
fn text_without_placeholder_is_unchanged() {
    let args = args_of(&[("a", "1"), ("World", "x")]);
    for s in ["", "plain", "$a", "{a}", "$ {a}", "a}${", "${}", "${a b}", "$${"] {
        assert!(!is_interpolated(s), "{:?}", s);
        assert_eq!(interpolate(s, &args), s);
    }
}

#[test]
fn single_placeholder() {
    assert_eq!(interpolate("${k}", &args_of(&[("k", "v")])), "v");
    assert_eq!(interpolate("${missing}", &Args::new()), "${missing}");
    assert_eq!(interpolate("${missing}", &args_of(&[("k", "v")])), "${missing}");
}

#[test]
fn every_occurrence_is_replaced() {
    let args = args_of(&[("a", "1"), ("b", "22")]);
    assert_eq!(interpolate("${a}${a}-${b}-${a}", &args), "11-22-1");
    assert_eq!(interpolate("x${a}y${c}z", &args), "x1y${c}z");
    assert_eq!(interpolate("${a_b1}", &args_of(&[("a_b1", "w")])), "w");
}

#[test]
fn values_are_stringified() {
    let mut args = Args::new();
    args.insert("n".to_string(), Value::Json("42".to_string()));
    args.insert("l".to_string(), Value::Json("[1,2]".to_string()));
    assert_eq!(interpolate("${n}:${l}", &args), "42:[1,2]");
}

#[test]
fn later_binding_of_a_name_counts() {
    let mut args = args_of(&[("k", "old")]);
    args.insert("k".to_string(), Value::text("new"));
    assert_eq!(interpolate("${k}", &args), "new");
    assert_eq!(args.get("k").unwrap().as_str(), Some("new"));
    let mut base = args_of(&[("a", "1"), ("b", "2")]);
    base.extend(&args_of(&[("b", "3"), ("c", "4")]));
    assert_eq!(interpolate("${a}${b}${c}", &base), "134");
    let copy = base.clone();
    assert_eq!(interpolate("${a}${b}${c}", &copy), "134");
}

#[test]
fn substitution_follows_the_placeholders_given() {
    let args = args_of(&[("a", "${b}"), ("b", "x")]);
    let found = vec!["${a}".to_string(), "${b}".to_string()];
    assert_eq!(substitute("${a} ${b}", &found, &args), "x x");
    let found = vec!["${a}".to_string()];
    assert_eq!(substitute("${a} ${b}", &found, &args), "${b} ${b}");
    let found = vec!["a".to_string(), "${".to_string(), "${a".to_string()];
    assert_eq!(substitute("${a} ${b}", &found, &args), "${a} ${b}");
    assert_eq!(substitute("${a} ${b}", &vec![], &args), "${a} ${b}");
}

#[test]
fn values_and_text() {
    assert!(Value::text("a").is_string());
    assert!(!Value::Json("1".to_string()).is_string());
    assert_eq!(Value::Json("1".to_string()).as_str(), None);
    assert_eq!(Value::text("a").as_str(), Some("a"));
    assert_eq!(Value::Json("null".to_string()).rendered(), "null");
    assert_eq!(Value::text("a").clone(), Value::text("a"));
}

#[test]
fn replace_all_replaces_from_the_left_without_overlap() {
    assert_eq!(replace_all("aaaa", "aa", "b"), "bb");
    assert_eq!(replace_all("aaa", "aa", "b"), "ba");
    assert_eq!(replace_all("abc", "", "x"), "abc");
    assert_eq!(replace_all("abc", "abcd", "x"), "abc");
    assert_eq!(replace_all("héllo wörld", "ö", "oe"), "héllo woerld");
    assert_eq!(replace_all("a.b.c", ".", ""), "abc");
    assert_eq!(replace_all("", "a", "b"), "");
    assert!(str_eq("é", "é"));
    assert!(!str_eq("a", "ab"));
    assert!(!str_eq("ab", "ac"));
    assert_eq!(chars_of("hé"), vec!['h', 'é']);
    assert!(starts_with("../a", "../"));
    assert!(!starts_with("./a", "../"));
    assert!(!starts_with("..", "../"));
    assert_eq!(trim_start_all("././a/./b", "./"), "a/./b");
    assert_eq!(trim_start_all("a", "./"), "a");
    assert_eq!(trim_start_all("....", ".."), "");
    assert_eq!(trim_start_all("abc", ""), "abc");
}
