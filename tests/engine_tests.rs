use plugin_engine::engine::Engine;
use plugin_engine::errors::EngineError;
use plugin_engine::model::{Book, Plugin};
use plugin_engine::pipeline::{Action, Outcome, Stage};
use plugin_engine::text::parse_i32;
use plugin_engine::xml_events::{Attribute, Event};
use plugin_engine::{init_context, init_engine};
use xml::reader::{EventReader, XmlEvent};

const MANIFEST: &str = r#"<?xml version="1.0" encoding="utf-8"?>
<plugin>
  <sited ver="3"/>
  <meta guid="bc9e3e3b-c6e8-4d84-b976-81cce04e4a61"/>
  <title>Sample Books</title>
  <hots cache="1d" title="Hot" method="get" url="https://example.org/hot" header="Referer:x" parse="parseBooks(content)"/>
  <require>
    <item id="helper1" url="https://example.org/helper1.js"/>
    <item id="helper2" url="https://example.org/helper2.js"/>
  </require>
  <code><![CDATA[function parseBooks(content) { return []; }]]></code>
</plugin>"#;

fn manifest_with(guid: &str, method: &str, parse: &str) -> String {
    format!(
        "<plugin><sited ver=\"1\"/><meta guid=\"{}\"/><hots method=\"{}\" url=\"https://example.org/p\" parse=\"{}\"/><code><![CDATA[var x = 1;]]></code></plugin>",
        guid, method, parse
    )
}

fn engine() -> Engine {
    init_engine(init_context("data"))
}

fn book(name: &str) -> Book {
    Book { name: name.to_string(), logo: format!("{}.png", name), url: format!("https://example.org/{}", name) }
}

fn evaluation(a: &Action) -> &plugin_engine::js::Evaluation {
    match a {
        Action::Evaluate(e) => e,
        other => panic!("expected an evaluation, got {:?}", other),
    }
}

#[test]
fn should_load_plugin() {
    let mut engine = engine();
    assert_eq!(engine.list().len(), 0);
    engine.load(MANIFEST).unwrap();
    let plugins = engine.list();
    assert_eq!(plugins.len(), 1);
    assert!(plugins.get(0).is_some());
}

#[test]
fn should_get_hots() {
    let mut engine = engine();
    let text = manifest_with("bc9e3e3b-c6e8-4d84-b976-81cce04e4a61", "get", "list()");
    engine.load(&text).unwrap();
    let uid = "bc9e3e3b-c6e8-4d84-b976-81cce04e4a61";
    let result = engine.find(uid);
    assert!(result.is_ok());
    assert_eq!(result.ok().unwrap().guid, uid);
    let mut p: Plugin = plugin_engine::manifest::parse_events(&events_of(&text)).unwrap();
    let (mut run, a) = p.start_hots();
    assert!(matches!(a, Action::Fetch(ref u) if u == "https://example.org/p"));
    let a = p.resume_hots(&mut run, Outcome::Fetched("<html/>".to_string()));
    assert_eq!(evaluation(&a).expression, "list()");
    let a = p.resume_hots(&mut run, Outcome::Evaluated(vec![book("a"), book("b")]));
    match a {
        Action::Finish(Ok(books)) => assert!(books.len() > 1),
        other => panic!("unexpected {:?}", other),
    }
}

fn events_of(text: &str) -> Vec<Event> {
    EventReader::from_str(text)
        .into_iter()
        .map(|e| match e {
            Ok(XmlEvent::StartElement { name, attributes, .. }) => Event::Start {
                name: name.local_name,
                attributes: attributes
                    .into_iter()
                    .map(|a| Attribute { name: a.name.local_name, value: a.value })
                    .collect(),
            },
            Ok(XmlEvent::EndElement { .. }) => Event::End,
            Ok(XmlEvent::Characters(s)) => Event::Characters(s),
            Ok(XmlEvent::CData(s)) => Event::CData(s),
            Ok(_) => Event::Other,
            Err(_) => Event::Malformed,
        })
        .collect()
}

#[test]
fn manifest_fields_match_attributes() {
    let mut engine = engine();
    engine.load(MANIFEST).unwrap();
    let p = &engine.list()[0];
    assert_eq!(p.ver, 3);
    assert_eq!(p.guid, "bc9e3e3b-c6e8-4d84-b976-81cce04e4a61");
    assert_eq!(p.title, "Sample Books");
    assert_eq!(p.code, "function parseBooks(content) { return []; }");
    assert_eq!(p.url, "");
    assert_eq!(p.hots.cache, "1d");
    assert_eq!(p.hots.title, "Hot");
    assert_eq!(p.hots.method, "get");
    assert_eq!(p.hots.url, "https://example.org/hot");
    assert_eq!(p.hots.header, "Referer:x");
    assert_eq!(p.hots.parse, "parseBooks(content)");
    assert_eq!(p.codes.len(), 2);
    assert_eq!(p.codes[0].id, "helper1");
    assert_eq!(p.codes[0].url, "https://example.org/helper1.js");
    assert_eq!(p.codes[1].id, "helper2");
    assert_eq!(p.codes[1].url, "https://example.org/helper2.js");
}

#[test]
fn list_keeps_load_order() {
    let mut engine = engine();
    for id in ["one", "two", "three"] {
        engine.load(&manifest_with(id, "get", "")).unwrap();
    }
    let ids: Vec<&str> = engine.list().iter().map(|p| p.guid.as_str()).collect();
    assert_eq!(ids, vec!["one", "two", "three"]);
}

#[test]
fn duplicate_ids_are_both_kept_and_find_returns_first() {
    let mut engine = engine();
    engine.load(&manifest_with("same", "get", "first()")).unwrap();
    engine.load(&manifest_with("same", "get", "second()")).unwrap();
    assert_eq!(engine.list().len(), 2);
    assert_eq!(engine.find("same").unwrap().hots.parse, "first()");
}

#[test]
fn find_present_and_absent() {
    let mut engine = engine();
    engine.load(MANIFEST).unwrap();
    engine.load(&manifest_with("other", "get", "")).unwrap();
    assert_eq!(engine.find("other").unwrap().guid, "other");
    assert_eq!(engine.find("missing").err(), Some(EngineError::NotFound));
}

#[test]
fn non_integer_version_is_rejected() {
    let mut engine = engine();
    let r = engine.load("<plugin><sited ver=\"v2\"/><meta guid=\"x\"/></plugin>");
    assert_eq!(r, Err(EngineError::InvalidField));
    assert_eq!(engine.list().len(), 0);
}

#[test]
fn version_accepts_signs_and_bounds() {
    assert_eq!(parse_i32("+12"), Some(12));
    assert_eq!(parse_i32("-2147483648"), Some(i32::MIN));
    assert_eq!(parse_i32("2147483647"), Some(i32::MAX));
    assert_eq!(parse_i32("2147483648"), None);
    assert_eq!(parse_i32("99999999999999999999"), None);
    assert_eq!(parse_i32(""), None);
    assert_eq!(parse_i32("-"), None);
    assert_eq!(parse_i32("1a"), None);
    assert_eq!(parse_i32("007"), Some(7));
}

#[test]
fn item_outside_require_is_ignored() {
    let mut engine = engine();
    engine
        .load("<plugin><item id=\"a\" url=\"u\"/><require><item id=\"b\" url=\"v\"><item id=\"c\" url=\"w\"/></item></require></plugin>")
        .unwrap();
    let p = &engine.list()[0];
    assert_eq!(p.codes.len(), 1);
    assert_eq!(p.codes[0].id, "b");
}

#[test]
fn truncated_manifest_gives_partial_descriptor() {
    let mut engine = engine();
    engine.load("<plugin><meta guid=\"g\"/><title>T</title><hots url=").unwrap();
    let p = &engine.list()[0];
    assert_eq!(p.guid, "g");
    assert_eq!(p.title, "T");
    assert_eq!(p.hots.url, "");
}

#[test]
fn dependency_scripts_load_in_manifest_order() {
    let mut engine = engine();
    engine.load(MANIFEST).unwrap();
    let mut p = plugin_engine::manifest::parse_events(&events_of(MANIFEST)).unwrap();
    let (mut run, a) = p.start_hots();
    assert!(matches!(a, Action::Fetch(ref u) if u == "https://example.org/hot"));
    let a = p.resume_hots(&mut run, Outcome::Fetched("page".to_string()));
    assert!(matches!(a, Action::Fetch(ref u) if u == "https://example.org/helper1.js"));
    assert_eq!(run.stage, Stage::Dependency(0));
    let a = p.resume_hots(&mut run, Outcome::Fetched("function h1() { return 1; }".to_string()));
    assert!(matches!(a, Action::Fetch(ref u) if u == "https://example.org/helper2.js"));
    let a = p.resume_hots(&mut run, Outcome::Fetched("function h2() { return h1() + 1; }".to_string()));
    let e = evaluation(&a);
    assert_eq!(
        e.scripts,
        vec![
            "function h1() { return 1; }".to_string(),
            "function h2() { return h1() + 1; }".to_string(),
            "function parseBooks(content) { return []; }".to_string(),
        ]
    );
    assert_eq!(e.expression, "parseBooks(content)");
    assert_eq!(e.bindings, vec![("content".to_string(), "page".to_string())]);
}

#[test]
fn unreachable_primary_url_fails_without_records() {
    let mut p = plugin_engine::manifest::parse_events(&events_of(MANIFEST)).unwrap();
    let (mut run, _) = p.start_hots();
    let a = p.resume_hots(&mut run, Outcome::FetchFailed);
    assert!(matches!(a, Action::Finish(Err(EngineError::FetchFailed))));
    assert_eq!(run.stage, Stage::Done);
}

#[test]
fn failed_dependency_fetch_aborts() {
    let mut p = plugin_engine::manifest::parse_events(&events_of(MANIFEST)).unwrap();
    let (mut run, _) = p.start_hots();
    p.resume_hots(&mut run, Outcome::Fetched("page".to_string()));
    let a = p.resume_hots(&mut run, Outcome::FetchFailed);
    assert!(matches!(a, Action::Finish(Err(EngineError::FetchFailed))));
}

#[test]
fn failed_evaluation_is_sandbox_error() {
    let mut p = plugin_engine::manifest::parse_events(&events_of(&manifest_with("g", "get", "f()"))).unwrap();
    let (mut run, _) = p.start_hots();
    p.resume_hots(&mut run, Outcome::Fetched("page".to_string()));
    let a = p.resume_hots(&mut run, Outcome::EvaluationFailed);
    assert!(matches!(a, Action::Finish(Err(EngineError::Sandbox))));
}

#[test]
fn literal_records_are_returned_unchanged() {
    let mut p = plugin_engine::manifest::parse_events(&events_of(&manifest_with("g", "GET", "[1,2,3]"))).unwrap();
    let (mut run, _) = p.start_hots();
    p.resume_hots(&mut run, Outcome::Fetched(String::new()));
    let books = vec![book("a"), book("b"), book("a")];
    let a = p.resume_hots(&mut run, Outcome::Evaluated(books.clone()));
    match a {
        Action::Finish(Ok(got)) => {
            assert_eq!(got.len(), 3);
            for (g, b) in got.iter().zip(books.iter()) {
                assert_eq!((&g.name, &g.logo, &g.url), (&b.name, &b.logo, &b.url));
            }
        }
        other => panic!("unexpected {:?}", other),
    }
}

#[test]
fn post_method_skips_primary_fetch() {
    let p = plugin_engine::manifest::parse_events(&events_of(&manifest_with("g", "PoSt", ""))).unwrap();
    let (run, a) = p.start_hots();
    assert_eq!(run.stage, Stage::Parsing);
    let e = evaluation(&a);
    assert_eq!(e.scripts, vec![String::new()]);
    assert_eq!(e.expression, "var x = 1;");
    assert_eq!(e.bindings, vec![("content".to_string(), String::new())]);
}

#[test]
fn hots_attributes_round_trip() {
    let mut engine = engine();
    engine.load(MANIFEST).unwrap();
    let attrs = engine.list()[0].hots.attributes();
    let pairs: Vec<(String, String)> = attrs.into_iter().map(|a| (a.name, a.value)).collect();
    let expected = [
        ("cache", "1d"),
        ("title", "Hot"),
        ("method", "get"),
        ("url", "https://example.org/hot"),
        ("header", "Referer:x"),
        ("parse", "parseBooks(content)"),
    ];
    for (k, v) in expected {
        assert!(pairs.contains(&(k.to_string(), v.to_string())), "missing {}", k);
    }
}

#[test]
fn sandbox_retains_scripts_in_order() {
    let mut js = plugin_engine::js::Js::new();
    js.addScript("function a(b,c){return b+c;}");
    let e = js.execute("function d(b,c){return b;}", "a(b,c)", vec![("b".to_string(), "hello".to_string())]);
    assert_eq!(e.scripts, vec!["function a(b,c){return b+c;}".to_string(), "function d(b,c){return b;}".to_string()]);
    assert_eq!(e.expression, "a(b,c)");
}

#[test]
fn context_keeps_data_path() {
    assert_eq!(init_context("/tmp/data").data_path, "/tmp/data");
}
