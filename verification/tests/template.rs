use serial_flasher::template::Bindings;
use serial_flasher::template::ResolveError;
use serial_flasher::template::resolve;

#[test]
fn resolve_substitutes_port_name() {
    let mut bindings = Bindings::new();
    bindings.insert("port_name", "COM3");
    let r = resolve("flash --port {port_name}", &bindings);
    assert_eq!(r.unwrap().as_str(), "flash --port COM3");
}

#[test]
fn resolve_without_placeholders_is_identity() {
    let bindings = Bindings::new();
    let r = resolve("plain command", &bindings);
    assert_eq!(r.unwrap().as_str(), "plain command");
}

#[test]
fn resolve_empty_template() {
    let bindings = Bindings::new();
    let r = resolve("", &bindings);
    assert_eq!(r.unwrap().as_str(), "");
}

#[test]
fn resolve_unbound_placeholder_fails() {
    let bindings = Bindings::new();
    let r = resolve("flash --port {port_name}", &bindings);
    match r {
        Err(ResolveError::UnboundPlaceholder(name)) => assert_eq!(name.as_str(), "port_name"),
        _ => panic!("expected an unbound-placeholder error"),
    }
}

#[test]
fn resolve_unclosed_brace_is_malformed() {
    let mut bindings = Bindings::new();
    bindings.insert("a", "1");
    let r = resolve("flash {a", &bindings);
    assert!(matches!(r, Err(ResolveError::MalformedTemplate)));
}

#[test]
fn resolve_nested_open_brace_is_malformed() {
    let mut bindings = Bindings::new();
    bindings.insert("a", "1");
    let r = resolve("{a{a}", &bindings);
    assert!(matches!(r, Err(ResolveError::MalformedTemplate)));
}

#[test]
fn resolve_stray_close_brace_is_malformed() {
    let bindings = Bindings::new();
    let r = resolve("a}b", &bindings);
    assert!(matches!(r, Err(ResolveError::MalformedTemplate)));
}

#[test]
fn resolve_several_placeholders_in_order() {
    let mut bindings = Bindings::new();
    bindings.insert("a", "one");
    bindings.insert("b", "two");
    let r = resolve("{a}-{b}-{a}", &bindings);
    assert_eq!(r.unwrap().as_str(), "one-two-one");
}

#[test]
fn later_binding_overrides_earlier() {
    let mut bindings = Bindings::new();
    bindings.insert("a", "old");
    bindings.insert("a", "new");
    let r = resolve("{a}", &bindings);
    assert_eq!(r.unwrap().as_str(), "new");
}

#[test]
fn resolve_is_single_pass() {
    let mut bindings = Bindings::new();
    bindings.insert("a", "{b}");
    bindings.insert("b", "x");
    let r = resolve("{a}", &bindings);
    assert_eq!(r.unwrap().as_str(), "{b}");
}

#[test]
fn resolve_leaves_inputs_unmodified() {
    let mut bindings = Bindings::new();
    bindings.insert("port_name", "COM3");
    let template = String::from("flash --port {port_name}");
    let _ = resolve(template.as_str(), &bindings);
    assert_eq!(template.as_str(), "flash --port {port_name}");
    assert_eq!(bindings.get("port_name").unwrap().as_str(), "COM3");
}

#[test]
fn bindings_get_absent_is_none() {
    let mut bindings = Bindings::new();
    bindings.insert("a", "1");
    assert!(bindings.get("b").is_none());
    assert_eq!(bindings.get("a").unwrap().as_str(), "1");
}
