use divvun_bundler::template::{render_template, Binding, TemplateError};
use divvun_bundler::text::{decimal_string, push_decimal, push_str};

fn bind(name: &str, value: &str) -> Binding {
    Binding { name: name.to_string(), value: value.to_string() }
}

#[test]
fn decimal_of_zero() {
    assert_eq!(decimal_string(0), "0");
}

#[test]
fn decimal_matches_display() {
    for n in [1u64, 9, 10, 99, 100, 1234567890, u64::MAX] {
        assert_eq!(decimal_string(n), n.to_string());
    }
}

#[test]
fn decimal_round_trip_on_values() {
    for n in [0u64, 7, 42, 1000, 18446744073709551615] {
        assert_eq!(decimal_string(n).parse::<u64>().unwrap(), n);
    }
}

#[test]
fn push_decimal_appends() {
    let mut out: Vec<char> = "build ".chars().collect();
    push_decimal(&mut out, 305);
    assert_eq!(out.iter().collect::<String>(), "build 305");
}

#[test]
fn push_str_appends_unicode() {
    let mut out: Vec<char> = vec!['á'];
    push_str(&mut out, "bč/ŋ");
    assert_eq!(out, vec!['á', 'b', 'č', '/', 'ŋ']);
}

#[test]
fn render_substitutes_placeholders() {
    let b = vec![bind("name", "sma"), bind("v", "1.0")];
    assert_eq!(render_template("lang {name} v{v}!", &b).unwrap(), "lang sma v1.0!");
}

#[test]
fn render_repeated_placeholder() {
    let b = vec![bind("x", "ab")];
    assert_eq!(render_template("{x}-{x}{x}", &b).unwrap(), "ab-abab");
}

#[test]
fn render_duplicate_binding_is_refused() {
    let b = vec![bind("x", "first"), bind("x", "second")];
    assert_eq!(render_template("{x}", &b), Err(TemplateError::UnusedBinding(1)));
}

#[test]
fn render_unused_binding() {
    let b = vec![bind("x", "1"), bind("y", "2"), bind("z", "3")];
    assert_eq!(render_template("{x}", &b), Err(TemplateError::UnusedBinding(1)));
    assert_eq!(render_template("{z}{x}", &b), Err(TemplateError::UnusedBinding(1)));
    assert_eq!(render_template("{y}{z}{x}", &b).unwrap(), "231");
    // A name inside an escaped brace is no placeholder.
    assert_eq!(render_template("{{x}} {y}{z}", &b), Err(TemplateError::UnusedBinding(0)));
}

#[test]
fn render_every_value_appears() {
    let b = vec![bind("app_id", "{42}"), bind("version", "1.0"), bind("sign_tool", "rem")];
    let out = render_template("[{sign_tool}] {version} {app_id}", &b).unwrap();
    for binding in &b {
        assert!(out.contains(&binding.value));
    }
}

#[test]
fn render_escapes() {
    let b = vec![bind("x", "1")];
    assert_eq!(
        render_template("${{Var}} {{{x}}} }}", &b).unwrap(),
        "${Var} {1} }"
    );
}

#[test]
fn render_value_with_braces_is_not_rendered_again() {
    let b = vec![bind("x", "{y}")];
    assert_eq!(render_template("<{x}>", &b).unwrap(), "<{y}>");
}

#[test]
fn render_plain_text_is_kept() {
    let t = "Name \"Divvun\"\nOutFile installer.exe\n";
    assert_eq!(render_template(t, &[]).unwrap(), t);
}

#[test]
fn render_empty_template() {
    assert_eq!(render_template("", &[]).unwrap(), "");
    assert_eq!(render_template("", &[bind("x", "1")]), Err(TemplateError::UnusedBinding(0)));
}

#[test]
fn render_unclosed_placeholder() {
    let b = vec![bind("x", "1")];
    assert_eq!(render_template("ab{x", &b), Err(TemplateError::UnclosedPlaceholder(2)));
    assert_eq!(render_template("{", &b), Err(TemplateError::UnclosedPlaceholder(0)));
}

#[test]
fn render_unmatched_brace() {
    let b = vec![bind("x", "1")];
    assert_eq!(render_template("{x} }", &b), Err(TemplateError::UnmatchedBrace(4)));
    assert_eq!(render_template("}", &b), Err(TemplateError::UnmatchedBrace(0)));
}

#[test]
fn render_unknown_name() {
    let b = vec![bind("x", "1")];
    assert_eq!(render_template("é {y}", &b), Err(TemplateError::UnknownName(2)));
    assert_eq!(render_template("{}", &b), Err(TemplateError::UnknownName(0)));
    assert_eq!(render_template("{x:>3}", &b), Err(TemplateError::UnknownName(0)));
}

#[test]
fn render_first_error_wins() {
    let b = vec![bind("x", "1")];
    assert_eq!(render_template("} {", &b), Err(TemplateError::UnmatchedBrace(0)));
}

#[test]
fn render_concat_law_on_values() {
    let b = vec![bind("a", "A"), bind("c", "C")];
    let x = render_template("1{a}{{", &b[..1]).unwrap();
    let y = render_template("}}{c}2", &b[1..]).unwrap();
    let xy = render_template("1{a}{{}}{c}2", &b).unwrap();
    assert_eq!(xy, format!("{}{}", x, y));
}

#[test]
fn render_escape_law_on_values() {
    let text = "Function .onInit { ${If} } {x}";
    let escaped = text.replace('{', "{{").replace('}', "}}");
    assert_eq!(render_template(&escaped, &[]).unwrap(), text);
}

#[test]
fn render_placeholder_law_on_values() {
    let b = vec![bind("sign_tool", "rem")];
    assert_eq!(render_template("{sign_tool}", &b).unwrap(), "rem");
}

#[test]
fn render_agrees_with_format() {
    let b = vec![bind("app_name", "Divvun"), bind("build", "12")];
    assert_eq!(
        render_template("Name \"{app_name}\" ${{Build}} {build}", &b).unwrap(),
        format!("Name \"{app_name}\" ${{Build}} {build}", app_name = "Divvun", build = 12)
    );
}
