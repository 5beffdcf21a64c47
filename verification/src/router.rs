use crate::config::{Config, ServiceConfig};
use crate::route_table::{
    prefix_matches, spec_first_match, spec_lookup, str_bytes, ConfigError, RouteTable,
};
use vstd::prelude::*;
use vstd::string::StringExecFns;

verus! {

/// An inbound HTTP request, reduced to the parts the router reads: method,
/// path, a header multimap, and the fully buffered body bytes.
#[derive(Clone, Debug)]
pub struct InboundRequest {
    pub method: String,
    pub path: String,
    pub headers: Vec<(String, String)>,
    pub body: Vec<u8>,
}

/// Where an outbound request is to be dispatched: an absolute URL for an
/// ordinary fetch, or the name of an internal binding supplied by the
/// hosting environment.
#[derive(Clone, Debug)]
pub enum OutboundTarget {
    External { url: String },
    Internal { service: String },
}

/// The outbound request the router hands to the transport: the resolved
/// target plus the inbound path, method, headers and body, carried over
/// verbatim. For an external target the path is already embedded in the
/// URL; the internal-binding transport still needs it to frame its call.
#[derive(Clone, Debug)]
pub struct OutboundRequest {
    pub target: OutboundTarget,
    pub path: String,
    pub method: String,
    pub headers: Vec<(String, String)>,
    pub body: Vec<u8>,
}

/// An HTTP response as the router synthesizes or passes it through.
#[derive(Clone, Debug)]
pub struct Response {
    pub status: u16,
    pub headers: Vec<(String, String)>,
    pub body: Vec<u8>,
}

/// The router's decision for one inbound request. `Dispatch` asks the
/// transport to perform the outbound call; the other two carry a finished
/// response: `NotFound` is a normal outcome, `Fault` an internal invariant
/// violation the host should log.
#[derive(Clone, Debug)]
pub enum RouteOutcome {
    NotFound(Response),
    Fault(Response),
    Dispatch(OutboundRequest),
}

/// A synthesized `404 Not Found` with the fixed body and no headers.
pub open spec fn is_not_found_response(r: Response) -> bool {
    &&& r.status == 404
    &&& r.headers@.len() == 0
    &&& r.body@ == str_bytes("Not Found"@)
}

/// A synthesized `500 Internal Server Error` with the fixed body and no
/// headers.
pub open spec fn is_internal_error_response(r: Response) -> bool {
    &&& r.status == 500
    &&& r.headers@.len() == 0
    &&& r.body@ == str_bytes("Internal Server Error"@)
}

/// A synthesized `502 Bad Gateway` with the fixed body and no headers.
pub open spec fn is_bad_gateway_response(r: Response) -> bool {
    &&& r.status == 502
    &&& r.headers@.len() == 0
    &&& r.body@ == str_bytes("Bad Gateway"@)
}

/// The outbound target a descriptor prescribes: with a base URL, the URL is
/// the base followed by the original path, by plain concatenation and with
/// no normalization; without one, the internal binding keyed by the
/// service's name.
pub open spec fn target_for(
    svc: ServiceConfig,
    name: Seq<char>,
    path: Seq<char>,
    t: OutboundTarget,
) -> bool {
    match svc.url {
        Some(base) => match t {
            OutboundTarget::External { url } => url@ == base@ + path,
            _ => false,
        },
        None => match t {
            OutboundTarget::Internal { service } => service@ == name,
            _ => false,
        },
    }
}

/// What forwarding a request along the rule at index `i` must produce:
/// a faithful outbound copy (method, headers and body unchanged) aimed at
/// the target the resolved descriptor prescribes, or, should the rule's
/// service name no longer resolve, an internal-error response.
pub open spec fn forwards_to(
    table: RouteTable,
    req: InboundRequest,
    i: int,
    r: RouteOutcome,
) -> bool {
    match spec_lookup(table.services@, table.routes@[i].service@) {
        None => match r {
            RouteOutcome::Fault(resp) => is_internal_error_response(resp),
            _ => false,
        },
        Some(svc) => match r {
            RouteOutcome::Dispatch(out) => {
                &&& out.path@ == req.path@
                &&& out.method@ == req.method@
                &&& out.headers == req.headers
                &&& out.body@ == req.body@
                &&& target_for(svc, table.routes@[i].service@, req.path@, out.target)
            },
            _ => false,
        },
    }
}

/// The router's full contract for one request: a `404` when no rule
/// matches the path, and otherwise whatever forwarding along the first
/// matching rule prescribes.
pub open spec fn route_outcome_ok(table: RouteTable, req: InboundRequest, r: RouteOutcome) -> bool {
    match spec_first_match(table.routes@, req.path@) {
        None => match r {
            RouteOutcome::NotFound(resp) => is_not_found_response(resp),
            _ => false,
        },
        Some(i) => forwards_to(table, req, i, r),
    }
}

/// First-match law: for any route that matches the request's path while no
/// earlier route does, every outcome the router's contract allows forwards
/// the request along exactly that route, to that route's service.
pub proof fn lemma_first_match_routes(
    table: RouteTable,
    req: InboundRequest,
    i: int,
    r: RouteOutcome,
)
    requires
        route_outcome_ok(table, req, r),
        0 <= i < table.routes@.len(),
        prefix_matches(table.routes@[i].path@, req.path@),
        forall|j: int| 0 <= j < i ==> !prefix_matches(table.routes@[j].path@, req.path@),
    ensures
        forwards_to(table, req, i, r),
{
    crate::route_table::lemma_first_match_wins(table.routes@, req.path@, i);
}

/// No-match law: a request whose path no configured prefix matches is
/// answered with the fixed `404 Not Found`, never forwarded.
pub proof fn lemma_no_match_not_found(table: RouteTable, req: InboundRequest, r: RouteOutcome)
    requires
        route_outcome_ok(table, req, r),
        forall|j: int|
            0 <= j < table.routes@.len() ==> !prefix_matches(table.routes@[j].path@, req.path@),
    ensures
        match r {
            RouteOutcome::NotFound(resp) => is_not_found_response(resp),
            _ => false,
        },
{
    crate::route_table::lemma_first_match_none(table.routes@, req.path@);
}

/// Preservation law: whenever the router dispatches, the outbound request
/// carries the inbound method, header set and body bytes unchanged.
pub proof fn lemma_forward_preserves_request(
    table: RouteTable,
    req: InboundRequest,
    i: int,
    r: RouteOutcome,
)
    requires
        route_outcome_ok(table, req, r),
        spec_first_match(table.routes@, req.path@) == Some(i),
        spec_lookup(table.services@, table.routes@[i].service@) is Some,
    ensures
        match r {
            RouteOutcome::Dispatch(out) => {
                &&& out.path@ == req.path@
                &&& out.method@ == req.method@
                &&& out.headers == req.headers
                &&& out.body@ == req.body@
            },
            _ => false,
        },
{
}

/// External-target law: when the matched rule's descriptor carries a base
/// URL, the dispatch targets that base URL followed by the original path,
/// by plain concatenation.
pub proof fn lemma_external_target(
    table: RouteTable,
    req: InboundRequest,
    i: int,
    base: String,
    r: RouteOutcome,
)
    requires
        route_outcome_ok(table, req, r),
        spec_first_match(table.routes@, req.path@) == Some(i),
        spec_lookup(table.services@, table.routes@[i].service@) matches Some(svc)
            && svc.url == Some(base),
    ensures
        match r {
            RouteOutcome::Dispatch(out) => match out.target {
                OutboundTarget::External { url } => url@ == base@ + req.path@,
                _ => false,
            },
            _ => false,
        },
{
}

/// Internal-target law: when the matched rule's descriptor carries no base
/// URL, the dispatch goes through the internal binding keyed by the rule's
/// service name.
pub proof fn lemma_internal_target(
    table: RouteTable,
    req: InboundRequest,
    i: int,
    r: RouteOutcome,
)
    requires
        route_outcome_ok(table, req, r),
        spec_first_match(table.routes@, req.path@) == Some(i),
        spec_lookup(table.services@, table.routes@[i].service@) matches Some(svc)
            && svc.url is None,
    ensures
        match r {
            RouteOutcome::Dispatch(out) => match out.target {
                OutboundTarget::Internal { service } => service@ == table.routes@[i].service@,
                _ => false,
            },
            _ => false,
        },
{
}

/// Copies a string's bytes into an owned buffer.
fn string_bytes(s: &str) -> (r: Vec<u8>)
    ensures
        r@ == str_bytes(s@),
{
    vstd::slice::slice_to_vec(s.as_bytes())
}

/// The fixed response for a path no rule matches.
pub fn not_found_response() -> (r: Response)
    ensures
        is_not_found_response(r),
{
    Response { status: 404, headers: Vec::new(), body: string_bytes("Not Found") }
}

/// The fixed response for an internal invariant violation, among them an
/// internal binding the hosting environment does not have registered.
pub fn internal_error_response() -> (r: Response)
    ensures
        is_internal_error_response(r),
{
    Response { status: 500, headers: Vec::new(), body: string_bytes("Internal Server Error") }
}

/// The fixed response for a transport-level failure of the outbound call
/// (connection refused, timeout, name resolution).
pub fn bad_gateway_response() -> (r: Response)
    ensures
        is_bad_gateway_response(r),
{
    Response { status: 502, headers: Vec::new(), body: string_bytes("Bad Gateway") }
}

/// The router: matches inbound requests against an immutable `RouteTable`
/// and turns each into a dispatch decision or a synthesized response.
#[derive(Clone, Debug)]
pub struct DynamicRouter {
    pub table: RouteTable,
}

impl DynamicRouter {
    /// Builds a router over a validated route table. Succeeds exactly when
    /// every rule references a known service; otherwise no router exists.
    pub fn new(config: Config) -> (r: Result<DynamicRouter, ConfigError>)
        ensures
            match r {
                Ok(router) => {
                    &&& router.table.routes == config.routes
                    &&& router.table.services == config.services
                    &&& router.table.wf()
                },
                Err(_) => exists|j: int|
                    0 <= j < config.routes@.len()
                        && spec_lookup(config.services@, config.routes@[j].service@) is None,
            },
    {
        match RouteTable::build(config) {
            Ok(table) => Ok(DynamicRouter { table }),
            Err(e) => Err(e),
        }
    }

    /// Routes one inbound request: scans the table for the first rule whose
    /// prefix matches the path, and forwards along it; with no match the
    /// outcome is the fixed `404`, a normal result rather than a fault.
    pub fn route_request(&self, req: InboundRequest) -> (r: RouteOutcome)
        ensures
            route_outcome_ok(self.table, req, r),
    {
        match self.table.find_match(req.path.as_str()) {
            Some(i) => self.forward_request(req, i),
            None => RouteOutcome::NotFound(not_found_response()),
        }
    }

    /// Forwards a request along the rule at `route_index`: resolves the
    /// rule's service descriptor and rebuilds the request, method, headers
    /// and body verbatim, against the descriptor's target. A name that does
    /// not resolve is an internal invariant violation (the table was
    /// validated at build time) and yields the fixed `500`.
    pub fn forward_request(&self, req: InboundRequest, route_index: usize) -> (r: RouteOutcome)
        requires
            route_index < self.table.routes@.len(),
        ensures
            forwards_to(self.table, req, route_index as int, r),
    {
        let name = &self.table.routes[route_index].service;
        match self.table.lookup(name) {
            Err(_) => RouteOutcome::Fault(internal_error_response()),
            Ok(svc) => {
                let target = match &svc.url {
                    Some(base) => OutboundTarget::External {
                        url: base.clone().concat(req.path.as_str()),
                    },
                    None => OutboundTarget::Internal { service: name.clone() },
                };
                RouteOutcome::Dispatch(OutboundRequest {
                    target,
                    path: req.path,
                    method: req.method,
                    headers: req.headers,
                    body: req.body,
                })
            },
        }
    }
}

} // verus!
