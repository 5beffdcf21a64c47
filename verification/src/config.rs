use vstd::prelude::*;

verus! {

/// A single routing rule: a request whose path starts with `path` is
/// forwarded to the service named `service`. Order in the rule table is
/// significant: the first matching rule wins.
#[derive(Clone, Debug)]
pub struct RouteConfig {
    pub path: String,
    pub service: String,
}

/// Connection descriptor for a named service. With `url` present the service
/// is reached by rewriting the request's authority to that base URL and
/// issuing an ordinary outbound fetch; with `url` absent it is reached
/// through the hosting environment's internal binding for the service name.
#[derive(Clone, Debug)]
pub struct ServiceConfig {
    pub url: Option<String>,
}

/// A configuration snapshot handed in at construction: the ordered rule
/// table and the mapping from service name to its descriptor, kept as an
/// association list whose first entry for a name is authoritative.
#[derive(Clone, Debug)]
pub struct Config {
    pub routes: Vec<RouteConfig>,
    pub services: Vec<(String, ServiceConfig)>,
}

} // verus!
