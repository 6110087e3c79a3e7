use error_pages::assets::{STYLESHEET, TEMPLATE};
use error_pages::config::default_status_code;
use error_pages::errors::{errors, ErrorType};
use error_pages::server::ErrorService;

#[test]
fn test_handle_health_check() {
    let service = ErrorService::new(404);
    let response = service.call("/.well-known/health");
    assert_eq!(response.status(), 200);
}

#[test]
fn test_handle_favicon() {
    let service = ErrorService::new(404);
    let response = service.call("/favicon.ico");
    assert_eq!(response.status(), 404);
}

#[test]
fn test_handle_default_error() {
    let service = ErrorService::new(404);
    let response = service.call("/unknown");
    assert_eq!(response.status(), 404);
}

#[test]
fn test_handle_known_errors() {
    let service = ErrorService::new(404);

    for error in errors().iter() {
        let response = service.call(&error.path());
        assert_eq!(response.status(), error.code());
        assert_eq!(response.content_type().unwrap(), "text/html");
    }
}

#[test]
fn known_pages_show_title_and_message() {
    let service = ErrorService::new(501);
    for error in errors().iter() {
        let response = service.call(&error.path());
        assert!(response.body().contains(error.title()));
        assert!(response.body().contains(error.message()));
        assert!(response.body().contains(&error.code().to_string()));
        assert_eq!(
            response.body(),
            error.build_response(Some(TEMPLATE), STYLESHEET).body()
        );
    }
}

#[test]
fn health_check_is_empty_whatever_the_service() {
    for service in [
        ErrorService::new(404),
        ErrorService::new(999),
        ErrorService::from_registry(&errors(), 500, None, ""),
    ] {
        let response = service.call("/.well-known/health");
        assert_eq!(response.status(), 200);
        assert_eq!(response.content_type(), None);
        assert_eq!(response.body(), "");
    }
}

#[test]
fn favicon_is_empty_whatever_the_service() {
    for service in [
        ErrorService::new(200),
        ErrorService::new(503),
        ErrorService::from_registry(&[], 500, Some("{{title}}"), ""),
    ] {
        let response = service.call("/favicon.ico");
        assert_eq!(response.status(), 404);
        assert_eq!(response.content_type(), None);
        assert_eq!(response.body(), "");
    }
}

#[test]
fn unknown_path_gets_the_configured_entry() {
    let service = ErrorService::new(404);
    let response = service.call("/nope");
    assert_eq!(response.status(), 404);
    assert_eq!(response.content_type(), Some("text/html"));
    assert!(response.body().contains("Not Found"));
    assert!(response
        .body()
        .contains("The requested service could not be found. Check the URL and try again."));
    assert_eq!(
        response.body(),
        service.call("/.well-known/http-404").body()
    );
}

#[test]
fn unknown_path_with_default_501_gets_the_registry_entry() {
    let service = ErrorService::new(501);
    let response = service.call("/nope");
    assert_eq!(response.status(), 501);
    assert!(response.body().contains(
        "The requested service is not implemented. Check the documentation and try again later."
    ));
}

#[test]
fn unknown_path_with_unlisted_default_gets_the_fallback_page() {
    for status in [0u16, 200, 418, 506, 999, 65535] {
        let service = ErrorService::new(status);
        let response = service.call("/nope");
        assert_eq!(response.status(), 501);
        assert_eq!(response.content_type(), Some("text/html"));
        assert!(response.body().contains("Not Implemented"));
        assert!(response
            .body()
            .contains("The requested service is not available at this endpoint."));
        let fallback = ErrorType::new(
            501,
            "Not Implemented",
            "The requested service is not available at this endpoint.",
        );
        assert_eq!(response.body(), fallback.into_response().body());
    }
}

#[test]
fn paths_are_matched_verbatim() {
    let service = ErrorService::new(503);
    for path in [
        "",
        "/",
        "/504",
        "/404",
        "404",
        "/.well-known/http-",
        "/.well-known/http-0404",
        "/.well-known/http-404/",
        "/.well-known/http-404?x=1",
        "/.well-known/HTTP-404",
        "/.well-known/http-200",
        "/.well-known/health/",
        "/.well-known/Health",
        "/favicon.ico/",
        "favicon.ico",
    ] {
        let response = service.call(path);
        assert_eq!(response.status(), 503);
        assert!(response.body().contains("Service Unavailable"));
    }
}

#[test]
fn service_without_a_template_serves_plain_text() {
    let service = ErrorService::from_registry(&errors(), 404, None, "ignored");
    let response = service.call("/.well-known/http-429");
    assert_eq!(response.status(), 429);
    assert_eq!(response.content_type(), Some("text/plain"));
    assert_eq!(
        response.body(),
        "429 Too Many Requests\nYou have exceeded the rate limit for this service. Check the rate limit and try again later."
    );
    let response = service.call("/elsewhere");
    assert_eq!(response.status(), 404);
    assert_eq!(response.content_type(), Some("text/plain"));
    assert_eq!(
        response.body(),
        "404 Not Found\nThe requested service could not be found. Check the URL and try again."
    );
    let service = ErrorService::from_registry(&errors(), 418, None, "");
    assert_eq!(
        service.call("/elsewhere").body(),
        "501 Not Implemented\nThe requested service is not available at this endpoint."
    );
}

#[test]
fn service_with_a_template_of_its_own() {
    let service = ErrorService::from_registry(
        &errors(),
        400,
        Some("[{{code}}] {{title}}: {{stylesheet}}"),
        "css",
    );
    assert_eq!(
        service.call("/.well-known/http-505").body(),
        "[505] HTTP Version Not Supported: css"
    );
    assert_eq!(service.call("/x").body(), "[400] Bad Request: css");
}

#[test]
fn every_answer_is_a_copy() {
    let service = ErrorService::new(404);
    let first = service.call("/.well-known/http-500");
    let body = first.into_body();
    let second = service.call("/.well-known/http-500");
    assert_eq!(second.body(), body);
}

#[test]
fn service_of_a_registry_of_its_own() {
    let entries = [
        ErrorType::new(418, "I'm a teapot", "Short and stout."),
        ErrorType::new(451, "Unavailable", "For legal reasons."),
    ];
    let service = ErrorService::from_registry(&entries, 451, None, "");
    assert_eq!(
        service.call("/.well-known/http-418").body(),
        "418 I'm a teapot\nShort and stout."
    );
    assert_eq!(service.call("/.well-known/http-404").status(), 451);
    assert_eq!(
        service.call("/anything").body(),
        "451 Unavailable\nFor legal reasons."
    );
    assert_eq!(service.call("/.well-known/health").status(), 200);
    assert_eq!(service.call("/favicon.ico").status(), 404);
}

#[test]
fn service_of_an_empty_registry_answers_with_the_fallback_page() {
    let service = ErrorService::from_registry(&[], 404, None, "");
    for path in ["/", "/504", "/.well-known/http-404", "/.well-known/http-501"] {
        let response = service.call(path);
        assert_eq!(response.status(), 501);
        assert_eq!(
            response.body(),
            "501 Not Implemented\nThe requested service is not available at this endpoint."
        );
    }
}

#[test]
fn later_entry_with_the_same_code_wins() {
    let entries = [
        ErrorType::new(500, "First", "one"),
        ErrorType::new(500, "Second", "two"),
    ];
    let service = ErrorService::from_registry(&entries, 500, Some("{{title}} {{message}}"), "");
    assert_eq!(service.call("/.well-known/http-500").body(), "Second two");
    assert_eq!(service.call("/elsewhere").body(), "Second two");
}

#[test]
fn configured_status_selects_the_default_page() {
    let service = ErrorService::new(default_status_code(Some("404")));
    let response = service.call("/nope");
    assert_eq!(response.status(), 404);
    assert!(response.body().contains("Not Found"));
    let service = ErrorService::new(default_status_code(Some("not a status")));
    assert_eq!(service.call("/nope").status(), 501);
    let service = ErrorService::new(default_status_code(None));
    let response = service.call("/nope");
    assert_eq!(response.status(), 501);
    assert!(response.body().contains(
        "The requested service is not implemented. Check the documentation and try again later."
    ));
}
