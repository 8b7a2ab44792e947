use spotatui::format::Template;

const KEYS: &[&str] = &["state", "device", "volume"];

#[test]
fn parse_and_render_simple() {
    let t = Template::parse("{state} on {device} ({volume}%)", KEYS).unwrap();
    assert_eq!(t.render(&["Playing", "Living Room", "42"]), "Playing on Living Room (42%)");
}

#[test]
fn escapes_braces() {
    let t = Template::parse("{{state}} = {state}", KEYS).unwrap();
    assert_eq!(t.render(&["Playing", "", ""]), "{state} = Playing");
}

#[test]
fn unknown_key_errors() {
    let err = Template::parse("{bogus}", KEYS).unwrap_err();
    assert!(err.to_string().contains("bogus"));
    assert!(err.to_string().contains("state"));
}

#[test]
fn unbalanced_brace_errors() {
    assert!(Template::parse("{state", KEYS).is_err());
    assert!(Template::parse("state}", KEYS).is_err());
}

#[test]
fn strips_newlines() {
    let t = Template::parse("{state}", KEYS).unwrap();
    assert_eq!(t.render(&["Play\ning"]), "Playing");
}

#[test]
fn empty_allowed_key_errors_cleanly() {
    let err = Template::parse("{x}", &[]).unwrap_err();
    assert!(err.to_string().contains("unknown key"));
}

#[test]
fn literal_only() {
    let t = Template::parse("just text", KEYS).unwrap();
    assert_eq!(t.render(&[]), "just text");
}

#[test]
fn plain_text_renders_back_unchanged() {
    let t = Template::parse("no placeholders here", KEYS).unwrap();
    assert_eq!(t.render(&["a", "b", "c"]), "no placeholders here");
}

#[test]
fn placeholder_keys_are_trimmed() {
    let t = Template::parse("[{ volume }]", KEYS).unwrap();
    assert_eq!(t.render(&["", "", "7"]), "[7]");
}

#[test]
fn each_error_names_its_fault() {
    let open = Template::parse("{state", KEYS).unwrap_err();
    assert!(open.to_string().contains("unbalanced '{'"));
    assert!(open.to_string().contains("state, device, volume"));
    let close = Template::parse("state}", KEYS).unwrap_err();
    assert!(close.to_string().contains("unbalanced '}'"));
    let unknown = Template::parse("{ nope }", KEYS).unwrap_err();
    assert_eq!(
        unknown.to_string(),
        "format template references unknown key '{nope}' (allowed: state, device, volume)"
    );
}

#[test]
fn missing_values_render_empty() {
    let t = Template::parse("<{device}>", KEYS).unwrap();
    assert_eq!(t.render(&["only state"]), "<>");
}

#[test]
fn adjacent_text_is_kept_as_one_literal() {
    let t = Template::parse("a{{b}}c{state}{device}", KEYS).unwrap();
    assert_eq!(
        format!("{:?}", t),
        "Template { segments: [Literal(\"a{b}c\"), Placeholder(0), Placeholder(1)] }"
    );
    assert_eq!(t, Template::parse("a{{b}}c{ state }{device}", KEYS).unwrap());
}
