//! The HTTP routes of the gateway: which method and path each endpoint is
//! served under.

use vstd::prelude::*;

verus! {

#[derive(Clone, Copy, Debug, PartialEq, Eq, Structural)]
pub enum Method {
    Get,
    Post,
}

/// One registered endpoint.
#[derive(Debug)]
pub struct Route {
    pub method: Method,
    pub path: &'static str,
}

pub open spec fn route_view(r: Route) -> (Method, Seq<char>) {
    (r.method, r.path@)
}

pub open spec fn routes_view(routes: Seq<Route>) -> Seq<(Method, Seq<char>)> {
    routes.map_values(|r: Route| route_view(r))
}

pub open spec fn idempotency_routes() -> Seq<(Method, Seq<char>)> {
    seq![(Method::Get, "/idempotency/receipt"@)]
}

pub open spec fn history_routes() -> Seq<(Method, Seq<char>)> {
    seq![
        (Method::Post, "/history/apply"@),
        (Method::Post, "/history/undo"@),
        (Method::Post, "/history/redo"@),
    ]
}

pub open spec fn chart_agent_routes() -> Seq<(Method, Seq<char>)> {
    seq![(Method::Get, "/chart-agent/capabilities"@)]
}

/// The whole API, module by module.
pub open spec fn api_routes() -> Seq<(Method, Seq<char>)> {
    idempotency_routes() + history_routes() + chart_agent_routes()
}




/// Every route of the API.
pub fn api() -> (routes: Vec<Route>)
    ensures
        routes_view(routes@) == api_routes(),
{
    let mut routes = crate::idempotency::router();
    let mut history = crate::history::router();
    let mut chart_agent = crate::chart_agent::router();
    let ghost a = routes@;
    let ghost b = history@;
    let ghost c = chart_agent@;
    routes.append(&mut history);
    routes.append(&mut chart_agent);
    assert(routes@ == a + b + c);
    assert(routes_view(routes@) =~= routes_view(a) + routes_view(b) + routes_view(c));
    routes
}

/// The chart agent's capability endpoint is part of the public API.
pub proof fn lemma_capability_route_is_registered()
    ensures
        api_routes().contains((Method::Get, "/chart-agent/capabilities"@)),
{
    assert(api_routes()[4] == (Method::Get, "/chart-agent/capabilities"@));
}

} // verus!
