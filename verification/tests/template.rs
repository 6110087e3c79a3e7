use error_pages::template::{template_iter, template_replace, TemplateToken, TemplateVars};

fn vars(pairs: &[(&str, &str)]) -> TemplateVars {
    let mut vars = TemplateVars::new();
    for (name, value) in pairs {
        vars.insert(name, value);
    }
    vars
}

fn tokens(template: &str) -> Vec<TemplateToken<'_>> {
    let mut iter = template_iter(template);
    let mut tokens = Vec::new();
    while let Some(token) = iter.next() {
        tokens.push(token);
    }
    tokens
}

#[test]
fn test_template_iter() {
    let template = "Hello, {{name1}} and {{name2}}!";
    let mut iter = template_iter(template);
    assert_eq!(iter.next(), Some(TemplateToken::Text("Hello, ")));
    assert_eq!(iter.next(), Some(TemplateToken::Var("name1")));
    assert_eq!(iter.next(), Some(TemplateToken::Text(" and ")));
    assert_eq!(iter.next(), Some(TemplateToken::Var("name2")));
    assert_eq!(iter.next(), Some(TemplateToken::Text("!")));
    assert_eq!(iter.next(), None);
}

#[test]
fn test_template_replace() {
    let template = "Hello, {{name}}!";
    let mut vars = TemplateVars::new();
    vars.insert("name", "world");
    assert_eq!(template_replace(template, vars), "Hello, world!");

    let template = "Hello, {{name}}! This is a test of the {{system}} system.";
    let mut vars = TemplateVars::new();
    vars.insert("name", "world");
    vars.insert("system", "emergency broadcast");
    assert_eq!(
        template_replace(template, vars),
        "Hello, world! This is a test of the emergency broadcast system."
    );
}

#[test]
fn iter_stays_at_the_end() {
    let mut iter = template_iter("a");
    assert_eq!(iter.next(), Some(TemplateToken::Text("a")));
    assert_eq!(iter.next(), None);
    assert_eq!(iter.next(), None);
}

#[test]
fn iter_of_empty_template_is_empty() {
    assert_eq!(template_iter("").next(), None);
}

#[test]
fn iter_restarts_from_the_start() {
    let template = "{{a}}b";
    let mut first = template_iter(template);
    assert_eq!(first.next(), Some(TemplateToken::Var("a")));
    let mut second = template_iter(template);
    assert_eq!(second.next(), Some(TemplateToken::Var("a")));
    assert_eq!(first.next(), Some(TemplateToken::Text("b")));
    assert_eq!(second.next(), Some(TemplateToken::Text("b")));
}

#[test]
fn unclosed_placeholder_is_text() {
    assert_eq!(
        tokens("broken {{unterminated"),
        vec![
            TemplateToken::Text("broken "),
            TemplateToken::Text("{{"),
            TemplateToken::Text("unterminated"),
        ]
    );
    assert_eq!(tokens("{{"), vec![TemplateToken::Text("{{")]);
    assert_eq!(
        tokens("{{}"),
        vec![TemplateToken::Text("{{"), TemplateToken::Text("}")]
    );
}

#[test]
fn unclosed_placeholder_before_a_closed_one() {
    assert_eq!(tokens("{{a {{b}}"), vec![TemplateToken::Var("a {{b")]);
}

#[test]
fn names_are_taken_verbatim() {
    assert_eq!(tokens("{{ name }}"), vec![TemplateToken::Var(" name ")]);
    assert_eq!(tokens("{{}}"), vec![TemplateToken::Var("")]);
    assert_eq!(tokens("{{a}b}}"), vec![TemplateToken::Var("a}b")]);
}

#[test]
fn braces_next_to_placeholders() {
    assert_eq!(tokens("{{{a}}"), vec![TemplateToken::Var("{a")]);
    assert_eq!(
        tokens("{{a}}}"),
        vec![TemplateToken::Var("a"), TemplateToken::Text("}")]
    );
    assert_eq!(
        tokens("{a}}{{b}}"),
        vec![TemplateToken::Text("{a}}"), TemplateToken::Var("b")]
    );
    assert_eq!(tokens("a{b}c"), vec![TemplateToken::Text("a{b}c")]);
    assert_eq!(tokens("}}"), vec![TemplateToken::Text("}}")]);
}

#[test]
fn adjacent_placeholders_are_separate_tokens() {
    assert_eq!(
        tokens("{{a}}{{b}}"),
        vec![TemplateToken::Var("a"), TemplateToken::Var("b")]
    );
    assert_eq!(
        template_replace("{{a}}{{b}}{{a}}", vars(&[("a", "1"), ("b", "2")])),
        "121"
    );
}

#[test]
fn text_beyond_ascii_is_kept() {
    assert_eq!(
        tokens("gr\u{fc}\u{df} {{n\u{e4}me}} \u{2764}"),
        vec![
            TemplateToken::Text("gr\u{fc}\u{df} "),
            TemplateToken::Var("n\u{e4}me"),
            TemplateToken::Text(" \u{2764}"),
        ]
    );
    assert_eq!(
        template_replace(
            "gr\u{fc}\u{df} {{n\u{e4}me}} \u{2764}",
            vars(&[("n\u{e4}me", "W\u{eb}lt")])
        ),
        "gr\u{fc}\u{df} W\u{eb}lt \u{2764}"
    );
}

#[test]
fn render_hello_world() {
    assert_eq!(
        template_replace("Hello, {{name}}!", vars(&[("name", "world")])),
        "Hello, world!"
    );
}

#[test]
fn render_keeps_unknown_variable() {
    assert_eq!(
        template_replace("{{a}} and {{b}}", vars(&[("a", "x")])),
        "x and {{b}}"
    );
}

#[test]
fn render_keeps_unclosed_placeholder() {
    assert_eq!(
        template_replace("broken {{unterminated", vars(&[])),
        "broken {{unterminated"
    );
    assert_eq!(
        template_replace("broken {{unterminated", vars(&[("unterminated", "x")])),
        "broken {{unterminated"
    );
}

#[test]
fn render_empty_template() {
    assert_eq!(template_replace("", vars(&[])), "");
    assert_eq!(template_replace("", vars(&[("a", "x")])), "");
}

#[test]
fn render_without_variables_changes_nothing() {
    for template in [
        "plain text",
        "{{a}} and {{b}}",
        "{{ a }}{{}}{{{x}}}",
        "a {{b",
        "}}{{",
        "{",
    ] {
        assert_eq!(template_replace(template, vars(&[])), template);
    }
}

#[test]
fn render_does_not_read_values_again() {
    assert_eq!(
        template_replace("{{a}}", vars(&[("a", "{{b}}"), ("b", "no")])),
        "{{b}}"
    );
    assert_eq!(
        template_replace("{{a}}b}}", vars(&[("a", "{{"), ("b", "no")])),
        "{{b}}"
    );
}

#[test]
fn render_does_not_escape_values() {
    assert_eq!(
        template_replace("<p>{{m}}</p>", vars(&[("m", "<b>&</b>")])),
        "<p><b>&</b></p>"
    );
}

#[test]
fn render_with_empty_value_and_empty_name() {
    assert_eq!(template_replace("a{{x}}b", vars(&[("x", "")])), "ab");
    assert_eq!(template_replace("a{{}}b", vars(&[("", "-")])), "a-b");
}

#[test]
fn vars_insert_replaces_and_get_finds() {
    let mut vars = TemplateVars::new();
    assert_eq!(vars.get("a"), None);
    vars.insert("a", "1");
    vars.insert("b", "2");
    assert_eq!(vars.get("a"), Some("1"));
    vars.insert("a", "3");
    assert_eq!(vars.get("a"), Some("3"));
    assert_eq!(vars.get("b"), Some("2"));
    assert_eq!(vars.get("c"), None);
    assert_eq!(template_replace("{{a}}{{b}}{{c}}", vars), "32{{c}}");
}
