use api_gateway::config::{AppConfig, AuthConfig, MatchType, RouteConfig, ServerConfig};
use api_gateway::error::ServerError;
use api_gateway::logging::{init_logging, parse_log_level, ConsoleConfig, LogFormat, LogLevel, LoggingConfig};
use api_gateway::matcher::RouteMatcher;
use api_gateway::proxy::{build_target_url, convert_response, filter_request_headers, filter_response_headers};
use api_gateway::routes::{is_method_allowed, route_request};

fn create_route(path: &str, match_type: MatchType) -> RouteConfig {
    RouteConfig {
        path: path.to_string(),
        target: "http://localhost:3000".to_string(),
        methods: vec!["GET".to_string(), "POST".to_string()],
        auth: AuthConfig::default(),
        match_type,
    }
}

#[test]
fn test_is_method_allowed() {
    let methods = vec!["GET".to_string(), "POST".to_string()];

    assert!(is_method_allowed(&methods, "GET"));
    assert!(is_method_allowed(&methods, "POST"));
    assert!(!is_method_allowed(&methods, "PUT"));

    // Empty methods list should allow all
    assert!(is_method_allowed(&Vec::new(), "DELETE"));
}

#[test]
fn test_method_gate_ignores_ascii_case() {
    let methods = vec!["get".to_string()];
    assert!(is_method_allowed(&methods, "GET"));
    assert!(is_method_allowed(&methods, "get"));
    assert!(is_method_allowed(&methods, "GeT"));
    assert!(!is_method_allowed(&methods, "POST"));
}

#[test]
fn test_config_creation() {
    let config = AppConfig {
        server: ServerConfig {
            host: "127.0.0.1".to_string(),
            port: 8080,
            max_connections: 1024,
        },
        routes: vec![create_route("/api/v1", MatchType::Exact)],
        logging: LoggingConfig::default(),
        debug: false,
    };
    assert_eq!(config.routes.len(), 1);
    assert_eq!(config.routes[0].path, "/api/v1");
}

#[test]
fn test_default_config() {
    let config = AppConfig::default();
    assert_eq!(config.server.host, "127.0.0.1");
    assert_eq!(config.server.port, 8080);
    assert_eq!(config.server.max_connections, 1024);
    assert!(config.routes.is_empty());
    assert!(!config.debug);
}

#[test]
fn test_no_routes_means_every_path_is_not_found() {
    let config = AppConfig::default();
    let matcher = RouteMatcher::new(config.routes).unwrap();
    match route_request(&matcher, "/anything", "GET") {
        Err(ServerError::RouteNotFound) => {}
        _ => panic!("with no routes configured every request is RouteNotFound"),
    }
    assert!(matcher.find_match("/").is_none());
}

#[test]
fn test_route_request_dispatch() {
    let mut denied = create_route("/only-get", MatchType::Exact);
    denied.methods = vec!["GET".to_string()];
    let routes = vec![create_route("/api/v1", MatchType::Exact), denied];
    let matcher = RouteMatcher::new(routes).unwrap();

    let ok = route_request(&matcher, "/api/v1", "GET").unwrap();
    assert_eq!(ok.route.target, "http://localhost:3000");

    // method denied is RouteNotFound, indistinguishable from no route
    match route_request(&matcher, "/only-get", "POST") {
        Err(ServerError::RouteNotFound) => {}
        _ => panic!("method denial must surface as RouteNotFound"),
    }
    match route_request(&matcher, "/nowhere", "GET") {
        Err(ServerError::RouteNotFound) => {}
        _ => panic!("no route must surface as RouteNotFound"),
    }
}

#[test]
fn test_build_target_url() {
    let url = build_target_url("http://localhost:3000", "/api/v1?q=1").unwrap();
    assert_eq!(url, "http://localhost:3000/api/v1?q=1");

    // trailing slashes on the base are trimmed
    let url = build_target_url("http://localhost:3000///", "/x").unwrap();
    assert_eq!(url, "http://localhost:3000/x");

    match build_target_url("ftp://host", "/x") {
        Err(ServerError::InvalidTarget(t)) => assert_eq!(t, "ftp://host/x"),
        _ => panic!("non-http target must be rejected"),
    }
}

#[test]
fn test_request_header_hygiene() {
    let headers = vec![
        ("Connection".to_string(), "keep-alive".to_string()),
        ("Upgrade".to_string(), "h2c".to_string()),
        ("Proxy-Authenticate".to_string(), "x".to_string()),
        ("Proxy-Authorization".to_string(), "y".to_string()),
        ("TE".to_string(), "trailers".to_string()),
        ("Trailers".to_string(), "z".to_string()),
        ("Transfer-Encoding".to_string(), "chunked".to_string()),
        ("Host".to_string(), "old-host".to_string()),
        ("Accept".to_string(), "application/json".to_string()),
    ];
    let out = filter_request_headers(&headers, "http://upstream:3000/api");
    let names: Vec<&str> = out.iter().map(|p| p.0.as_str()).collect();
    assert_eq!(names, vec!["Accept", "host"]);
    assert_eq!(out.last().unwrap().1, "upstream:3000");
}

#[test]
fn test_host_omits_default_port() {
    let out = filter_request_headers(&Vec::new(), "http://upstream/api");
    assert_eq!(out, vec![("host".to_string(), "upstream".to_string())]);

    // the url parser never reports a port equal to the scheme default
    let out = filter_request_headers(&Vec::new(), "https://upstream:443/api");
    assert_eq!(out, vec![("host".to_string(), "upstream".to_string())]);

    let out = filter_request_headers(&Vec::new(), "https://upstream:8443/api");
    assert_eq!(out, vec![("host".to_string(), "upstream:8443".to_string())]);
}

#[test]
fn test_response_header_hygiene_and_round_trip() {
    let headers = vec![
        ("Connection".to_string(), "close".to_string()),
        ("Upgrade".to_string(), "h2c".to_string()),
        ("Transfer-Encoding".to_string(), "chunked".to_string()),
        ("Content-Type".to_string(), "text/plain".to_string()),
    ];
    let body = vec![0u8, 1, 2, 255];
    let resp = convert_response(301, &headers, body.clone());
    assert_eq!(resp.status, 301);
    assert_eq!(resp.body, body);
    assert_eq!(resp.headers, vec![("Content-Type".to_string(), "text/plain".to_string())]);

    let kept = filter_response_headers(&headers);
    assert_eq!(kept.len(), 1);
    assert_eq!(kept[0].0, "Content-Type");
}

#[test]
fn test_error_bodies() {
    let e = ServerError::RouteNotFound;
    assert_eq!(e.status_code(), 404);
    assert_eq!(e.body_json(), "{\"error\":\"Not found\"}");

    let e = ServerError::ProxyError("Request failed: connect refused".to_string());
    assert_eq!(e.status_code(), 502);
    assert_eq!(
        e.body_json(),
        "{\"error\":\"Service temporarily unavailable\",\"debug\":\"Request failed: connect refused\"}"
    );

    let e = ServerError::InvalidTarget("ftp://host/x".to_string());
    assert_eq!(e.status_code(), 500);
    assert_eq!(
        e.body_json(),
        "{\"error\":\"Configuration error\",\"debug\":\"Invalid target: ftp://host/x\"}"
    );

    let e = ServerError::RequestError("Failed to read request body".to_string());
    assert_eq!(e.status_code(), 400);
    assert_eq!(
        e.body_json(),
        "{\"error\":\"Bad request\",\"debug\":\"Failed to read request body\"}"
    );

    let e = ServerError::InternalError("Failed to build response".to_string());
    assert_eq!(e.status_code(), 500);
    assert_eq!(
        e.body_json(),
        "{\"error\":\"Internal server error\",\"debug\":\"Failed to build response\"}"
    );
}

#[test]
fn test_error_body_escaping() {
    let e = ServerError::ProxyError("a \"quoted\" \\ back\nslash".to_string());
    assert_eq!(
        e.body_json(),
        "{\"error\":\"Service temporarily unavailable\",\"debug\":\"a \\\"quoted\\\" \\\\ back\\u000aslash\"}"
    );
    // the body must stay parseable JSON
    let v: serde_json::Value = serde_json::from_str(&e.body_json()).unwrap();
    assert_eq!(v["debug"], serde_json::Value::String("a \"quoted\" \\ back\nslash".to_string()));
}

#[test]
fn test_describe() {
    let e = ServerError::ProxyError("boom".to_string());
    assert_eq!(e.describe(), "Proxy error: boom");
    assert_eq!(ServerError::RouteNotFound.describe(), "Route not found");
}

#[test]
fn test_parse_log_level() {
    assert_eq!(parse_log_level("trace"), LogLevel::Trace);
    assert_eq!(parse_log_level("DEBUG"), LogLevel::Debug);
    assert_eq!(parse_log_level("info"), LogLevel::Info);
    assert_eq!(parse_log_level("warn"), LogLevel::Warn);
    assert_eq!(parse_log_level("Warning"), LogLevel::Warn);
    assert_eq!(parse_log_level("error"), LogLevel::Error);
    assert_eq!(parse_log_level("bogus"), LogLevel::Info);
}

#[test]
fn test_init_logging_plan() {
    let cfg = LoggingConfig {
        level: "debug".to_string(),
        format: LogFormat::Json,
        console: ConsoleConfig { enabled: true, colors: true },
    };
    let plan = init_logging(&cfg).unwrap();
    assert_eq!(plan.level, "debug");
    assert_eq!(plan.format, LogFormat::Json);
    assert!(!plan.colors); // JSON output never uses colors

    let cfg = LoggingConfig {
        level: "info".to_string(),
        format: LogFormat::Pretty,
        console: ConsoleConfig { enabled: false, colors: true },
    };
    assert!(init_logging(&cfg).is_none());
}
