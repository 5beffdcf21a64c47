use solidflare::config::{Config, RouteConfig, ServiceConfig};
use solidflare::route_table::{ConfigError, RouteTable, RouterError};

fn route(path: &str, service: &str) -> RouteConfig {
    RouteConfig { path: path.to_string(), service: service.to_string() }
}

fn external(url: &str) -> ServiceConfig {
    ServiceConfig { url: Some(url.to_string()) }
}

fn internal() -> ServiceConfig {
    ServiceConfig { url: None }
}

#[test]
fn build_succeeds_when_all_services_known() {
    let config = Config {
        routes: vec![route("/api", "alpha"), route("/admin", "beta")],
        services: vec![
            ("alpha".to_string(), external("https://alpha.example")),
            ("beta".to_string(), internal()),
        ],
    };
    let table = RouteTable::build(config).unwrap();
    assert_eq!(table.routes.len(), 2);
    assert_eq!(table.services.len(), 2);
}

#[test]
fn build_unknown_service_fails() {
    let config = Config {
        routes: vec![route("/api", "alpha"), route("/admin", "ghost")],
        services: vec![("alpha".to_string(), external("https://alpha.example"))],
    };
    match RouteTable::build(config) {
        Ok(_) => panic!("build must fail for a route referencing an unknown service"),
        Err(ConfigError::UnknownService { service }) => assert_eq!(service, "ghost"),
    }
}

#[test]
fn build_empty_config_succeeds() {
    let config = Config { routes: vec![], services: vec![] };
    let table = RouteTable::build(config).unwrap();
    assert_eq!(table.routes.len(), 0);
}

#[test]
fn find_match_returns_first_matching_index() {
    let config = Config {
        routes: vec![route("/admin", "beta"), route("/api", "alpha"), route("/api/v2", "alpha")],
        services: vec![
            ("alpha".to_string(), external("https://alpha.example")),
            ("beta".to_string(), internal()),
        ],
    };
    let table = RouteTable::build(config).unwrap();
    assert_eq!(table.find_match("/api/v2/x"), Some(1));
    assert_eq!(table.find_match("/admin/users"), Some(0));
    assert_eq!(table.find_match("/health"), None);
}

#[test]
fn find_match_is_a_raw_substring_test() {
    let config = Config {
        routes: vec![route("/api", "alpha")],
        services: vec![("alpha".to_string(), external("https://alpha.example"))],
    };
    let table = RouteTable::build(config).unwrap();
    // Deliberately not segment-aware: "/api" also matches "/apiary".
    assert_eq!(table.find_match("/apiary"), Some(0));
    // And a path shorter than the prefix never matches.
    assert_eq!(table.find_match("/ap"), None);
}

#[test]
fn empty_prefix_matches_every_path() {
    // Prefixes conventionally start with "/", but the matching itself is a
    // plain byte-prefix test, so the empty prefix matches any path.
    let config = Config {
        routes: vec![route("", "alpha")],
        services: vec![("alpha".to_string(), external("https://alpha.example"))],
    };
    let table = RouteTable::build(config).unwrap();
    assert_eq!(table.find_match("/anything"), Some(0));
    assert_eq!(table.find_match(""), Some(0));
}

#[test]
fn lookup_present_and_absent() {
    let config = Config {
        routes: vec![],
        services: vec![("alpha".to_string(), external("https://alpha.example"))],
    };
    let table = RouteTable::build(config).unwrap();
    let found = table.lookup(&"alpha".to_string()).unwrap();
    assert_eq!(found.url.as_deref(), Some("https://alpha.example"));
    match table.lookup(&"ghost".to_string()) {
        Ok(_) => panic!("lookup must fail for a name absent from the service map"),
        Err(e) => assert_eq!(e, RouterError::ServiceNotFound),
    }
}

#[test]
fn lookup_takes_first_entry_for_a_name() {
    let config = Config {
        routes: vec![],
        services: vec![
            ("alpha".to_string(), external("https://first.example")),
            ("alpha".to_string(), external("https://second.example")),
        ],
    };
    let table = RouteTable::build(config).unwrap();
    let found = table.lookup(&"alpha".to_string()).unwrap();
    assert_eq!(found.url.as_deref(), Some("https://first.example"));
}
