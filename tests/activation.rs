use script::classify::{classify, trim_html_space_str, is_script_mime_str};
use script::element::{ElementCreator, HTMLScriptElement, HTMLScriptElementHelpers, ScriptAttr};
use script::resolve::{finish_fetch, resolve, Action, ActivationOutcome, FetchResponse, ResolvedSource};

const BASE: &str = "http://example.test/page/";

const SCRIPT_MIMES: [&str; 16] = [
    "application/ecmascript",
    "application/javascript",
    "application/x-ecmascript",
    "application/x-javascript",
    "text/ecmascript",
    "text/javascript",
    "text/javascript1.0",
    "text/javascript1.1",
    "text/javascript1.2",
    "text/javascript1.3",
    "text/javascript1.4",
    "text/javascript1.5",
    "text/jscript",
    "text/livescript",
    "text/x-ecmascript",
    "text/x-javascript",
];

fn execute(text: &str, origin: &str) -> Action {
    Action::Execute(ResolvedSource { text: text.to_string(), origin_url: origin.to_string() })
}

fn inserted_with_text(text: &str) -> HTMLScriptElement {
    let mut e = HTMLScriptElement::new(ElementCreator::ParserCreated);
    assert_eq!(e.child_inserted(text, BASE), None);
    assert_eq!(e.bind_to_tree(true, BASE), None);
    e
}

#[test]
fn classify_defaults_to_script() {
    assert!(classify(None, None));
    assert!(classify(Some(""), None));
    assert!(classify(Some(""), Some("vbscript")));
    assert!(classify(Some(" \t\n"), None));
    assert!(classify(None, Some("")));
}

#[test]
fn classify_every_legacy_mime() {
    for m in SCRIPT_MIMES.iter() {
        assert!(classify(Some(m), None), "{}", m);
        assert!(is_script_mime_str(m));
    }
}

#[test]
fn classify_rejects_other_types() {
    assert!(!classify(Some("text/plain"), None));
    assert!(!classify(Some("TEXT/JAVASCRIPT"), None));
    assert!(!classify(Some("text/javascript2.0"), None));
    assert!(!classify(Some("module"), Some("javascript")));
}

#[test]
fn classify_trims_type() {
    assert!(classify(Some("  text/javascript\r\n"), None));
    assert!(classify(Some("\x0Capplication/ecmascript\t"), None));
    assert!(!classify(Some("text/ java script"), None));
}

#[test]
fn classify_uses_language_without_type() {
    assert!(classify(None, Some("javascript")));
    assert!(classify(None, Some("javascript1.5")));
    assert!(classify(None, Some("livescript")));
    assert!(!classify(None, Some("vbscript")));
    assert!(!classify(None, Some(" javascript")));
    assert!(!classify(Some("text/plain"), Some("javascript")));
}

#[test]
fn trim_removes_html_space_only() {
    assert_eq!(trim_html_space_str(" \t a b \r\n\x0C"), "a b");
    assert_eq!(trim_html_space_str("   "), "");
    assert_eq!(trim_html_space_str(""), "");
    assert_eq!(trim_html_space_str("\u{a0}x"), "\u{a0}x");
}

#[test]
fn scenario_inline_text_executes_with_base_url() {
    let mut e = inserted_with_text("1+1");
    assert_eq!(e.prepare(BASE), execute("1+1", BASE));
    assert!(e.is_activated());
}

#[test]
fn scenario_src_fetched_and_decoded() {
    let mut e = HTMLScriptElement::new(ElementCreator::ParserCreated);
    e.after_set_attr(ScriptAttr::Src, Some("foo.js".to_string()), BASE);
    e.bind_to_tree(true, BASE);
    let a = e.prepare(BASE);
    assert_eq!(a, Action::Fetch("http://example.test/page/foo.js".to_string()));
    let done = finish_fetch(FetchResponse::Loaded {
        final_url: "http://example.test/page/foo.js".to_string(),
        bytes: b"alert(1)".to_vec(),
    });
    assert_eq!(done, execute("alert(1)", "http://example.test/page/foo.js"));
}

#[test]
fn scenario_text_plain_not_executed() {
    let mut e = HTMLScriptElement::new(ElementCreator::ParserCreated);
    e.after_set_attr(ScriptAttr::Type, Some("text/plain".to_string()), BASE);
    e.child_inserted("alert(1)", BASE);
    e.bind_to_tree(true, BASE);
    assert_eq!(e.prepare(BASE), Action::Stop(ActivationOutcome::NotExecutableType));
    assert!(!e.is_activated());
    assert!(!e.is_parser_inserted());
}

#[test]
fn second_attempt_is_already_activated() {
    let mut e = inserted_with_text("1+1");
    assert_eq!(e.prepare(BASE), execute("1+1", BASE));
    assert_eq!(e.prepare(BASE), Action::Stop(ActivationOutcome::AlreadyActivated));
    assert_eq!(e.prepare(BASE), Action::Stop(ActivationOutcome::AlreadyActivated));
}

#[test]
fn failed_fetch_still_marks_activated() {
    let mut e = HTMLScriptElement::new(ElementCreator::ParserCreated);
    e.after_set_attr(ScriptAttr::Src, Some("missing.js".to_string()), BASE);
    e.bind_to_tree(true, BASE);
    assert_eq!(e.prepare(BASE), Action::Fetch("http://example.test/page/missing.js".to_string()));
    assert!(e.is_activated());
    assert_eq!(finish_fetch(FetchResponse::Failed), Action::Stop(ActivationOutcome::FetchFailed));
    assert_eq!(e.prepare(BASE), Action::Stop(ActivationOutcome::AlreadyActivated));
}

#[test]
fn src_takes_precedence_over_inline_text() {
    let mut e = inserted_with_text("inline()");
    e.after_set_attr(ScriptAttr::Src, Some("/lib/a.js".to_string()), BASE);
    assert_eq!(e.prepare(BASE), Action::Fetch("http://example.test/lib/a.js".to_string()));
}

#[test]
fn empty_src_yields_no_content() {
    let mut e = inserted_with_text("inline()");
    e.after_set_attr(ScriptAttr::Src, Some(String::new()), BASE);
    assert_eq!(e.prepare(BASE), Action::Stop(ActivationOutcome::NoContent));
    assert_eq!(resolve(Some(""), "x", BASE), Action::Stop(ActivationOutcome::NoContent));
}

#[test]
fn malformed_url_is_fetch_failed() {
    assert_eq!(resolve(Some("http://[::1"), "", BASE), Action::Stop(ActivationOutcome::FetchFailed));
    assert_eq!(resolve(Some("a.js"), "", "not a url"), Action::Stop(ActivationOutcome::FetchFailed));
}

#[test]
fn resolve_inline_uses_base_url() {
    assert_eq!(resolve(None, "f()", BASE), execute("f()", BASE));
    assert_eq!(
        resolve(Some("https://cdn.test/x.js"), "f()", BASE),
        Action::Fetch("https://cdn.test/x.js".to_string())
    );
}

#[test]
fn decode_replaces_malformed_bytes() {
    let done = finish_fetch(FetchResponse::Loaded { final_url: BASE.to_string(), bytes: vec![0x61, 0xFF, 0x62] });
    assert_eq!(done, execute("a\u{FFFD}b", BASE));
    let empty = finish_fetch(FetchResponse::Loaded { final_url: BASE.to_string(), bytes: Vec::new() });
    assert_eq!(empty, execute("", BASE));
}

#[test]
fn no_content_stops() {
    let mut e = HTMLScriptElement::new(ElementCreator::ParserCreated);
    e.bind_to_tree(true, BASE);
    assert_eq!(e.prepare(BASE), Action::Stop(ActivationOutcome::NoContent));
    assert!(!e.is_activated());
}

#[test]
fn detached_element_never_activates() {
    let mut e = HTMLScriptElement::new(ElementCreator::ScriptCreated);
    assert_eq!(e.after_set_attr(ScriptAttr::Type, Some("text/javascript".to_string()), BASE), None);
    assert_eq!(e.child_inserted("run()", BASE), None);
    assert_eq!(e.after_set_attr(ScriptAttr::Src, Some("a.js".to_string()), BASE), None);
    assert_eq!(e.prepare(BASE), Action::Stop(ActivationOutcome::DetachedFromDocument));
    assert!(!e.is_activated());
    assert!(!e.is_in_document());
}

#[test]
fn script_created_element_activates_on_insertion() {
    let mut e = HTMLScriptElement::new(ElementCreator::ScriptCreated);
    assert!(!e.is_non_blocking());
    assert!(!e.is_parser_inserted());
    assert_eq!(e.child_inserted("go()", BASE), None);
    assert_eq!(e.bind_to_tree(true, BASE), Some(execute("go()", BASE)));
    assert!(e.is_activated());
    assert_eq!(e.child_inserted("more()", BASE), Some(Action::Stop(ActivationOutcome::AlreadyActivated)));
}

#[test]
fn src_change_in_document_triggers_attempt() {
    let mut e = HTMLScriptElement::new(ElementCreator::ScriptCreated);
    assert_eq!(e.bind_to_tree(true, BASE), Some(Action::Stop(ActivationOutcome::NoContent)));
    assert_eq!(e.after_set_attr(ScriptAttr::Async, Some(String::new()), BASE), None);
    assert_eq!(
        e.after_set_attr(ScriptAttr::Src, Some("b.js".to_string()), BASE),
        Some(Action::Fetch("http://example.test/page/b.js".to_string()))
    );
    assert_eq!(e.src(), Some("b.js"));
}

#[test]
fn parser_inserted_flags() {
    let mut e = HTMLScriptElement::new(ElementCreator::ParserCreated);
    assert!(e.is_parser_inserted());
    assert!(!e.is_non_blocking());
    e.after_set_attr(ScriptAttr::Async, Some(String::new()), BASE);
    e.bind_to_tree(true, BASE);
    assert_eq!(e.prepare(BASE), Action::Stop(ActivationOutcome::NoContent));
    assert!(!e.is_parser_inserted());
    assert!(e.is_non_blocking());

    let mut p = HTMLScriptElement::new(ElementCreator::ParserCreated);
    p.after_set_attr(ScriptAttr::Async, Some(String::new()), BASE);
    p.child_inserted("x()", BASE);
    p.bind_to_tree(true, BASE);
    assert_eq!(p.prepare(BASE), execute("x()", BASE));
    assert!(p.is_parser_inserted());
    assert!(!p.is_non_blocking());
}

#[test]
fn clone_propagates_activation() {
    let mut e = inserted_with_text("1+1");
    let fresh = e.clone_node();
    assert!(!fresh.is_activated());
    e.prepare(BASE);
    let mut copy = e.clone_node();
    assert!(copy.is_activated());
    assert_eq!(copy.text(), "1+1");
    assert!(!copy.is_in_document());
    assert_eq!(copy.bind_to_tree(true, BASE), Some(Action::Stop(ActivationOutcome::AlreadyActivated)));

    let mut target = HTMLScriptElement::new(ElementCreator::ScriptCreated);
    e.cloning_steps(&mut target);
    assert!(target.is_activated());
    target.mark_already_started();
    assert!(target.is_activated());
}

#[test]
fn set_text_replaces_and_triggers() {
    let mut e = HTMLScriptElement::new(ElementCreator::ScriptCreated);
    e.bind_to_tree(true, BASE);
    assert_eq!(e.set_text("", BASE), None);
    assert_eq!(e.set_text("a()", BASE), Some(execute("a()", BASE)));
    assert_eq!(e.text(), "a()");
    e.unbind_from_tree();
    assert!(!e.is_in_document());
}

#[test]
fn is_javascript_reads_attributes() {
    let mut e = HTMLScriptElement::new(ElementCreator::ScriptCreated);
    assert!(e.is_javascript());
    e.after_set_attr(ScriptAttr::Language, Some("vbscript".to_string()), BASE);
    assert!(!e.is_javascript());
    e.after_set_attr(ScriptAttr::Type, Some("".to_string()), BASE);
    assert!(e.is_javascript());
    e.after_set_attr(ScriptAttr::Type, None, BASE);
    e.after_set_attr(ScriptAttr::Language, None, BASE);
    assert!(e.is_javascript());
}
