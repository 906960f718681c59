use api_gateway::config::{AuthConfig, MatchType, RouteConfig};
use api_gateway::matcher::RouteMatcher;

fn create_route(path: &str, match_type: MatchType) -> RouteConfig {
    RouteConfig {
        path: path.to_string(),
        target: "http://example.com".to_string(),
        methods: vec!["GET".to_string()],
        auth: AuthConfig::default(),
        match_type,
    }
}

#[test]
fn test_exact_matching() {
    let routes = vec![create_route("/api/v1", MatchType::Exact)];
    let matcher = RouteMatcher::new(routes).unwrap();

    assert!(matcher.find_match("/api/v1").is_some());
    assert!(matcher.find_match("/api/v2").is_none());
    assert!(matcher.find_match("/api/v1/users").is_none());
}

#[test]
fn test_wildcard_matching() {
    let routes = vec![
        create_route("/api/*/users", MatchType::Wildcard),
        create_route("/files/**", MatchType::Wildcard),
    ];
    let matcher = RouteMatcher::new(routes).unwrap();

    // Single wildcard
    assert!(matcher.find_match("/api/v1/users").is_some());
    assert!(matcher.find_match("/api/v2/users").is_some());
    assert!(matcher.find_match("/api/users").is_none()); // * must match something

    // Double wildcard
    assert!(matcher.find_match("/files/docs/readme.txt").is_some());
    assert!(matcher.find_match("/files/").is_some());
    assert!(matcher.find_match("/files").is_some());
}

#[test]
fn test_parameter_extraction() {
    let routes = vec![create_route("/users/{id}/posts/{post_id}", MatchType::Wildcard)];
    let matcher = RouteMatcher::new(routes).unwrap();

    if let Some(route_match) = matcher.find_match("/users/123/posts/456") {
        assert_eq!(route_match.get_param("id"), Some(&"123".to_string()));
        assert_eq!(route_match.get_param("post_id"), Some(&"456".to_string()));
    } else {
        panic!("Route should match");
    }
}

#[test]
fn test_prefix_matching() {
    let routes = vec![create_route("/api", MatchType::Prefix)];
    let matcher = RouteMatcher::new(routes).unwrap();

    assert!(matcher.find_match("/api").is_some());
    assert!(matcher.find_match("/api/v1").is_some());
    assert!(matcher.find_match("/api/v1/users").is_some());
    assert!(matcher.find_match("/different").is_none());
}

#[test]
fn test_regex_matching() {
    let routes = vec![create_route(r"^/api/v\d+/users$", MatchType::Regex)];
    let matcher = RouteMatcher::new(routes).unwrap();

    assert!(matcher.find_match("/api/v1/users").is_some());
    assert!(matcher.find_match("/api/v2/users").is_some());
    assert!(matcher.find_match("/api/v10/users").is_some());
    assert!(matcher.find_match("/api/vX/users").is_none());
    assert!(matcher.find_match("/api/v1/users/123").is_none());
}

#[test]
fn test_empty_exact_pattern_matches_root_only() {
    let routes = vec![create_route("", MatchType::Exact)];
    let matcher = RouteMatcher::new(routes).unwrap();

    assert!(matcher.find_match("/").is_some());
    assert!(matcher.find_match("/a").is_none());
    assert!(matcher.find_match("").is_none());
}

#[test]
fn test_prefix_has_no_boundary() {
    let routes = vec![create_route("/ap", MatchType::Prefix)];
    let matcher = RouteMatcher::new(routes).unwrap();

    assert!(matcher.find_match("/apple").is_some());
}

#[test]
fn test_declaration_order_breaks_ties() {
    let routes = vec![
        create_route("/api", MatchType::Prefix),
        create_route("/api/v1", MatchType::Exact),
    ];
    let matcher = RouteMatcher::new(routes).unwrap();

    let m = matcher.find_match("/api/v1").unwrap();
    assert_eq!(m.route.match_type, MatchType::Prefix);
    assert_eq!(m.route.path, "/api");
}

#[test]
fn test_find_match_is_deterministic() {
    let routes = vec![
        create_route("/users/{id}", MatchType::Wildcard),
        create_route("/users/**", MatchType::Wildcard),
    ];
    let matcher = RouteMatcher::new(routes).unwrap();

    let a = matcher.find_match("/users/42").unwrap();
    let b = matcher.find_match("/users/42").unwrap();
    assert_eq!(a.route.path, b.route.path);
    assert_eq!(a.get_param("id"), b.get_param("id"));
    assert_eq!(a.get_param("id"), Some(&"42".to_string()));
}

#[test]
fn test_invalid_regex_rejects_whole_table() {
    let routes = vec![
        create_route("/ok", MatchType::Exact),
        create_route("(unclosed", MatchType::Regex),
    ];
    let err = match RouteMatcher::new(routes) {
        Err(e) => e,
        Ok(_) => panic!("table with an invalid pattern must be rejected"),
    };
    assert_eq!(err.pattern, "(unclosed");
}

#[test]
fn test_wildcard_capture_keys_are_placeholders() {
    let routes = vec![create_route("/a/{x}/b/{y}", MatchType::Wildcard)];
    let matcher = RouteMatcher::new(routes).unwrap();

    let m = matcher.find_match("/a/1/b/2").unwrap();
    assert_eq!(m.params.len(), 2);
    assert_eq!(m.params[0].0, "x");
    assert_eq!(m.params[1].0, "y");
    assert!(m.get_param("z").is_none());
}

#[test]
fn test_unclosed_brace_swallows_rest() {
    // An unclosed `{` swallows the rest of the pattern; the name is
    // non-empty, so it still captures.
    let routes = vec![create_route("/x/{rest", MatchType::Wildcard)];
    let matcher = RouteMatcher::new(routes).unwrap();

    let m = matcher.find_match("/x/anything").unwrap();
    assert_eq!(m.get_param("rest"), Some(&"anything".to_string()));

    // An unclosed `{` with an empty name captures nothing and matches `/x/`.
    let routes = vec![create_route("/x/{", MatchType::Wildcard)];
    let matcher = RouteMatcher::new(routes).unwrap();
    let m = matcher.find_match("/x/").unwrap();
    assert!(m.params.is_empty());
}

#[test]
fn test_compile_wildcard_pattern_output() {
    let (rx, names) = api_gateway::pattern::compile_wildcard_pattern("/users/{id}/posts/{post_id}");
    assert_eq!(rx, "^/users/([^/]+)/posts/([^/]+)$");
    assert_eq!(names, vec!["id".to_string(), "post_id".to_string()]);

    let (rx, names) = api_gateway::pattern::compile_wildcard_pattern("/files/**");
    assert_eq!(rx, "^/files(?:/.*)?$");
    assert!(names.is_empty());

    let (rx, names) = api_gateway::pattern::compile_wildcard_pattern("/a/**/b");
    assert_eq!(rx, "^/a/.*/b$");
    assert!(names.is_empty());

    let (rx, _) = api_gateway::pattern::compile_wildcard_pattern("/a.b+c/*");
    assert_eq!(rx, r"^/a\.b\+c/[^/]*$");
}
