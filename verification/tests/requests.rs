use std::collections::HashMap;

use urouter::file_response;
use urouter::get_page;
use urouter::index;
use urouter::into_response;
use urouter::Action;
use urouter::Agent;
use urouter::Alias;
use urouter::AliasType;
use urouter::DispatchError;
use urouter::External;
use urouter::Resolver;
use urouter::Response;
use urouter::UserAgent;

fn text(uri: &str, body: &str) -> Alias {
    Alias { uri: uri.to_string(), alias: AliasType::Text(body.to_string()), agent: None }
}

fn curl_only_redirect() -> Alias {
    Alias {
        uri: "/x".to_string(),
        alias: AliasType::Url("https://a".to_string()),
        agent: Some(Agent { regex: "curl".to_string(), only_matching: Some(true) }),
    }
}

fn client(name: &str) -> UserAgent {
    UserAgent(name.to_string())
}

fn served(action: Action) -> Response {
    match action {
        Action::Respond(response) => response,
        other => panic!("expected a response, got {:?}", other),
    }
}

#[test]
fn text_alias_is_served_as_plain_text_to_anyone() {
    let resolver = Resolver::new(vec![text("/x", "hi")]).unwrap();
    for name in ["", "curl/8.0", "Mozilla/5.0 (X11; Linux x86_64)"] {
        let response = served(get_page(&resolver, "/x", &client(name)));
        assert_eq!(response, Response::Text("hi".to_string()));
        assert_eq!(response.status(), 200);
        assert_eq!(response.body(), Some("hi"));
        assert_eq!(response.content_type(), Some("text/plain"));
    }
}

#[test]
fn matching_client_is_redirected() {
    let resolver = Resolver::new(vec![curl_only_redirect(), text("/x", "fallback")]).unwrap();
    let response = served(get_page(&resolver, "/x", &client("curl/8.0")));
    assert_eq!(response, Response::Redirect("https://a".to_string()));
    assert_eq!(response.status(), 303);
    assert_eq!(response.location(), Some("https://a"));
    assert_eq!(response.body(), None);
}

#[test]
fn other_client_gets_the_fallback() {
    let resolver = Resolver::new(vec![curl_only_redirect(), text("/x", "fallback")]).unwrap();
    let response = served(get_page(&resolver, "/x", &client("Mozilla")));
    assert_eq!(response.status(), 200);
    assert_eq!(response.body(), Some("fallback"));
}

#[test]
fn strict_rule_alone_gives_not_found() {
    let resolver = Resolver::new(vec![curl_only_redirect()]).unwrap();
    let response = served(get_page(&resolver, "/x", &client("Mozilla")));
    assert_eq!(response, Response::Status(404));
    assert_eq!(response.status(), 404);
    assert_eq!(response.body(), None);
    assert_eq!(response.content_type(), None);
}

#[test]
fn unreadable_file_gives_server_error_and_serving_goes_on() {
    let missing = Alias {
        uri: "/f".to_string(),
        alias: AliasType::File("no/such/file.txt".to_string()),
        agent: None,
    };
    let resolver = Resolver::new(vec![missing, text("/x", "hi")]).unwrap();
    let action = get_page(&resolver, "/f", &client("Mozilla"));
    assert_eq!(action, Action::ReadFile("no/such/file.txt".to_string()));
    let outcome = file_response(None);
    assert_eq!(outcome, Err(DispatchError::FileRead));
    let response = into_response(outcome);
    assert_eq!(response, Response::Status(500));
    assert_eq!(response.status(), 500);
    let next = served(get_page(&resolver, "/x", &client("Mozilla")));
    assert_eq!(next.body(), Some("hi"));
}

#[test]
fn readable_file_is_served_as_plain_text() {
    let response = into_response(file_response(Some("contents\n".to_string())));
    assert_eq!(response, Response::Text("contents\n".to_string()));
    assert_eq!(response.content_type(), Some("text/plain"));
}

#[test]
fn escaped_dots_are_decoded_and_compared_literally() {
    let resolver = Resolver::new(vec![text("/%2E%2E", "escaped"), text("/..", "dots")]).unwrap();
    let response = served(get_page(&resolver, "/%2E%2E", &client("")));
    assert_eq!(response.body(), Some("dots"));
    let alone = Resolver::new(vec![text("/%2E%2E", "escaped")]).unwrap();
    assert_eq!(served(get_page(&alone, "/%2E%2E", &client(""))), Response::Status(404));
}

#[test]
fn root_path_is_served_by_index() {
    let resolver = Resolver::new(vec![text("/x", "hi"), text("/", "home")]).unwrap();
    let response = served(index(&resolver, &client("Mozilla")));
    assert_eq!(response.body(), Some("home"));
    let empty = Resolver::new(Vec::new()).unwrap();
    assert_eq!(served(index(&empty, &client("Mozilla"))), Response::Status(404));
}

#[test]
fn html_alias_is_served_as_html() {
    let page = Alias {
        uri: "/h".to_string(),
        alias: AliasType::Html("<p>hi</p>".to_string()),
        agent: None,
    };
    let resolver = Resolver::new(vec![page]).unwrap();
    let response = served(get_page(&resolver, "/h", &client("")));
    assert_eq!(response, Response::Html("<p>hi</p>".to_string()));
    assert_eq!(response.status(), 200);
    assert_eq!(response.content_type(), Some("text/html"));
    assert_eq!(response.body(), Some("<p>hi</p>"));
}

#[test]
fn external_alias_asks_for_a_fetch_with_its_headers() {
    let mut headers = HashMap::new();
    headers.insert("Accept".to_string(), "text/plain".to_string());
    headers.insert("X-Token".to_string(), "t".to_string());
    let source = External { url: "https://up.example/data".to_string(), headers };
    let record = Alias {
        uri: "/e".to_string(),
        alias: AliasType::External(source.clone()),
        agent: None,
    };
    let resolver = Resolver::new(vec![record]).unwrap();
    assert_eq!(get_page(&resolver, "/e", &client("")), Action::Fetch(source));
}
