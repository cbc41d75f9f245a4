use crawler::package::Content;
use crawler::script::{parse, ScriptContent, ScriptEntry};
use crawler::target::{format_of, DescriptionFormat};
use crawler::crawler::download;
use crawler::failure::ErrorKind;
use crawler::value::Value;
use crawler::work::WorkOutput;

fn entry(kind: &str, name: &str, content: ScriptContent) -> ScriptEntry {
    ScriptEntry { kind: kind.to_string(), name: name.to_string(), content }
}

#[test]
fn script_entries_become_outcomes() {
    let out = parse(vec![
        entry("ok", "title", ScriptContent::Text("Example".to_string())),
        entry("then", "next", ScriptContent::Bytes(vec![1, 2])),
        entry("ok", "raw", ScriptContent::Bytes(vec![])),
    ])
    .unwrap();
    assert_eq!(out.len(), 3);
    assert!(matches!(&out[0], WorkOutput::Result(Ok(p))
        if p.name() == "title" && matches!(&p.content, Content::Value(Value::Text(s)) if s == "Example")));
    assert!(matches!(&out[1], WorkOutput::Then(p)
        if p.name() == "next" && matches!(&p.content, Content::Bytes(b) if b == &vec![1u8, 2])));
    assert!(matches!(&out[2], WorkOutput::Result(Ok(p)) if p.name() == "raw"));
    assert!(parse(vec![]).unwrap().is_empty());
}

#[test]
fn script_entry_of_another_type_fails() {
    let e = parse(vec![
        entry("ok", "a", ScriptContent::Text("x".to_string())),
        entry("err", "b", ScriptContent::Text("y".to_string())),
        entry("ok", "c", ScriptContent::Other("number".to_string())),
    ])
    .unwrap_err();
    assert_eq!(e, "unknown entry type");
    let e = parse(vec![
        entry("then", "c", ScriptContent::Other("number".to_string())),
        entry("nope", "b", ScriptContent::Text("y".to_string())),
    ])
    .unwrap_err();
    assert_eq!(e, "invalid package content type");
}

#[test]
fn description_format_by_extension() {
    assert_eq!(format_of("json"), Some(DescriptionFormat::Json));
    assert_eq!(format_of("yaml"), Some(DescriptionFormat::Yaml));
    assert_eq!(format_of("yml"), Some(DescriptionFormat::Yaml));
    assert_eq!(format_of("toml"), None);
    assert_eq!(format_of(""), None);
    assert_eq!(format_of("JSON"), None);
}

#[test]
fn download_keeps_the_body_of_a_success() {
    assert_eq!(download(200, "a".to_string()).unwrap(), "a");
    assert_eq!(download(299, "b".to_string()).unwrap(), "b");
    for status in [199u16, 300, 404, 500] {
        let e = download(status, "x".to_string()).unwrap_err();
        assert!(matches!(e.kind(), ErrorKind::Http(s) if *s == status));
    }
}
