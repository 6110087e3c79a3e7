use error_pages::assets::{get_static, STYLESHEET, STYLESHEET_NAME, TEMPLATE, TEMPLATE_NAME};
use error_pages::template::{template_iter, TemplateToken};

#[test]
fn test_get_artifact() {
    assert!(get_static("stylesheet.css").is_some());
    assert!(get_static("nonexistent.css").is_none());
}

#[test]
fn assets_are_found_by_their_names() {
    assert_eq!(get_static(STYLESHEET_NAME).as_deref(), Some(STYLESHEET));
    assert_eq!(get_static(TEMPLATE_NAME).as_deref(), Some(TEMPLATE));
    assert_eq!(get_static("template.html.tpl").as_deref(), Some(TEMPLATE));
}

#[test]
fn other_names_have_no_asset() {
    for name in [
        "",
        "stylesheet",
        "stylesheet.css ",
        "Stylesheet.css",
        "/stylesheet.css",
        "template.html",
        "template.html.tpl.bak",
    ] {
        assert!(get_static(name).is_none());
    }
}

#[test]
fn template_names_every_variable_of_a_page() {
    let mut names = Vec::new();
    let mut iter = template_iter(TEMPLATE);
    while let Some(token) = iter.next() {
        if let TemplateToken::Var(name) = token {
            names.push(name);
        }
    }
    for name in ["code", "title", "message", "stylesheet"] {
        assert!(names.contains(&name));
    }
    for name in names {
        assert!(["code", "title", "message", "stylesheet"].contains(&name));
    }
}
