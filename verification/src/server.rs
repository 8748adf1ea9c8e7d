//! The API server: shared application state, a route table registered under a
//! versioned path prefix, the middleware installation plan, and the built-in
//! liveness endpoint.
//!
//! The server here is the decision half of the process: it computes each
//! route's full path, answers which handler a request path reaches, and fixes
//! the order middleware is installed in. The process edge owns the sockets:
//! it binds the configured address, dispatches to the handler this table
//! names, and feeds lifecycle observations into [`crate::lifecycle::step`].

use vstd::prelude::*;
use vstd::string::StringExecFns;
use std::sync::Arc;
use crate::config::HttpConfig;
use crate::db::Database;
use crate::envelope::HttpResponse;

verus! {

/// The state shared by every request's handler: the process's one pool
/// handle, under shared ownership so each request clones cheaply.
#[derive(Clone)]
pub struct AppState {
    pub db: Arc<Database>,
}

/// What a matched route dispatches to. Handlers themselves are arbitrary
/// callables living at the process edge, in a registry keyed by the
/// identifier they were registered with; the liveness endpoint is served by
/// the framework itself.
#[derive(Debug, Clone, Copy, PartialEq, Eq, Structural)]
pub enum RouteTarget {
    /// The built-in `GET /health` endpoint.
    Health,
    /// The handler registered under this registry key.
    Handler(u64),
}

/// One registered GET route: the full path it answers and its target.
#[derive(Debug)]
pub struct Route {
    pub path: String,
    pub target: RouteTarget,
}

/// The middleware installed around the route table, in installation order:
/// request tracing first, then the error-observability stage, then — only
/// when configured — the cross-origin layer.
#[derive(Debug, Clone, Copy, PartialEq, Eq, Structural)]
pub enum MiddlewareKind {
    /// Opens a per-request tracing span carrying method, URI and matched
    /// route.
    TraceSpan,
    /// Logs each response's attached fault exactly once
    /// ([`crate::middleware::log_app_errors`]).
    ErrorObservability,
    /// Installs the configured allow-origin policy on responses.
    Cors,
}

/// The ephemeral per-request tracing context: created when a request enters
/// the pipeline, discarded when its response is emitted.
#[derive(Debug)]
pub struct RequestSpan {
    pub method: String,
    pub uri: String,
    pub matched_path: Option<String>,
}

/// The full path a suffix is registered under: `{path}/{version}/{suffix}`.
pub open spec fn full_path_view(config: HttpConfig, suffix: Seq<char>) -> Seq<char> {
    config.path@ + "/"@ + config.version@ + "/"@ + suffix
}

/// The set of paths a route table answers.
pub open spec fn spec_route_paths(routes: Seq<Route>) -> Set<Seq<char>> {
    Set::new(|p: Seq<char>| exists|i: int| 0 <= i < routes.len() && routes[i].path@ == p)
}

/// The target a route table dispatches `path` to: that of the first route
/// registered under `path`, if any.
pub open spec fn spec_route_for(routes: Seq<Route>, path: Seq<char>) -> Option<RouteTarget>
    decreases routes.len(),
{
    if routes.len() == 0 {
        None
    } else if routes[0].path@ == path {
        Some(routes[0].target)
    } else {
        spec_route_for(routes.drop_first(), path)
    }
}

/// The API server: its immutable configuration, the shared state, and the
/// accumulated route table.
pub struct ApiServer {
    state: AppState,
    config: HttpConfig,
    router: Vec<Route>,
}

impl ApiServer {
    /// The configuration the server was built with.
    pub closed spec fn spec_config(&self) -> HttpConfig {
        self.config
    }

    /// The shared application state.
    pub closed spec fn spec_state(&self) -> AppState {
        self.state
    }

    /// The route table, in registration order.
    pub closed spec fn spec_routes(&self) -> Seq<Route> {
        self.router@
    }

    /// Builds a server over `config` and the process's pool handle, with the
    /// unprefixed liveness route already registered and nothing else.
    pub fn new(config: HttpConfig, db: Database) -> (r: Self)
        ensures
            r.spec_config() == config,
            r.spec_state().db == db,
            r.spec_routes().len() == 1,
            r.spec_routes()[0].path@ == "/health"@,
            r.spec_routes()[0].target == RouteTarget::Health,
    {
        let mut router: Vec<Route> = Vec::new();
        router.push(Route { path: String::from_str("/health"), target: RouteTarget::Health });
        ApiServer { state: AppState { db: Arc::new(db) }, config, router }
    }

    /// Registers a handler under `{path}/{version}/{suffix}` as a GET route.
    ///
    /// Routes accumulate: everything registered before stays exactly as it
    /// was, and the new route is appended with its computed full path.
    ///
    /// The table itself admits a path registered twice, and dispatch then
    /// goes to the first registration ([`spec_route_for`]); a socket-level
    /// router typically refuses the duplicate outright, so the edge is
    /// expected to register each suffix once. [`lemma_route_for_push`] and
    /// [`lemma_add_route_order_independent`] state what registration
    /// guarantees under that discipline.
    pub fn add_route(&mut self, path: &str, handler: u64)
        ensures
            final(self).spec_config() == old(self).spec_config(),
            final(self).spec_state() == old(self).spec_state(),
            final(self).spec_routes().len() == old(self).spec_routes().len() + 1,
            final(self).spec_routes().drop_last() == old(self).spec_routes(),
            final(self).spec_routes().last().path@ == full_path_view(
                old(self).spec_config(),
                path@,
            ),
            final(self).spec_routes().last().target == RouteTarget::Handler(handler),
    {
        let full = self.config.path.clone().concat("/").concat(
            self.config.version.as_str(),
        ).concat("/").concat(path);
        self.router.push(Route { path: full, target: RouteTarget::Handler(handler) });
        proof {
            assert(final(self).spec_routes().drop_last() =~= old(self).spec_routes());
        }
    }

    /// The target a request path reaches on this server, if any.
    pub fn route_for(&self, path: &str) -> (r: Option<RouteTarget>)
        ensures
            r == spec_route_for(self.spec_routes(), path@),
    {
        let key = String::from_str(path);
        let n = self.router.len();
        let mut i: usize = 0;
        proof {
            assert(self.router@.skip(0) =~= self.router@);
        }
        while i < n
            invariant
                0 <= i <= n,
                n == self.router@.len(),
                key@ == path@,
                spec_route_for(self.router@, path@) == spec_route_for(
                    self.router@.skip(i as int),
                    path@,
                ),
            decreases n - i,
        {
            if self.router[i].path == key {
                proof {
                    assert(self.router@.skip(i as int)[0] == self.router@[i as int]);
                }
                return Some(self.router[i].target);
            }
            proof {
                assert(self.router@.skip(i as int).drop_first() =~= self.router@.skip(
                    i as int + 1,
                ));
            }
            i = i + 1;
        }
        proof {
            assert(self.router@.skip(n as int) =~= Seq::<Route>::empty());
        }
        None
    }

    /// The configured listen address, for the edge that binds the socket.
    pub fn config(&self) -> (c: &HttpConfig)
        ensures
            *c == self.spec_config(),
    {
        &self.config
    }

    /// The shared state, for the edge that hands it to handlers.
    pub fn state(&self) -> (s: &AppState)
        ensures
            *s == self.spec_state(),
    {
        &self.state
    }

    /// The route table in registration order, for the edge that builds the
    /// socket-level router from it.
    pub fn routes(&self) -> (r: &Vec<Route>)
        ensures
            r@ == self.spec_routes(),
    {
        &self.router
    }

    /// The middleware to install around this server's routes, in
    /// installation order. Tracing and error observability are always
    /// present, in that order; the cross-origin layer exists exactly when
    /// the configuration enables it.
    pub fn middleware_stack(&self) -> (r: Vec<MiddlewareKind>)
        ensures
            self.spec_config().cors.enabled ==> r@ =~= seq![
                MiddlewareKind::TraceSpan,
                MiddlewareKind::ErrorObservability,
                MiddlewareKind::Cors,
            ],
            !self.spec_config().cors.enabled ==> r@ =~= seq![
                MiddlewareKind::TraceSpan,
                MiddlewareKind::ErrorObservability,
            ],
    {
        let mut stack: Vec<MiddlewareKind> = Vec::new();
        stack.push(MiddlewareKind::TraceSpan);
        stack.push(MiddlewareKind::ErrorObservability);
        if self.config.cors.enabled {
            stack.push(MiddlewareKind::Cors);
        }
        stack
    }
}

/// The liveness answer: `200 OK` with body `"OK"`. It is computed from
/// nothing — in particular not from the pool — so liveness never depends on
/// backing-store health.
pub fn health_response() -> (r: HttpResponse)
    ensures
        r.status == 200,
        r.body@ == "OK"@,
        r.error is None,
{
    HttpResponse { status: 200, body: String::from_str("OK"), error: None }
}

/// The tracing span opened for one request, carrying its method, URI and —
/// once routing has matched — the matched route pattern, all verbatim.
pub fn make_request_span(method: &str, uri: &str, matched_path: Option<&str>) -> (r: RequestSpan)
    ensures
        r.method@ == method@,
        r.uri@ == uri@,
        match matched_path {
            Some(m) => r.matched_path matches Some(p) && p@ == m@,
            None => r.matched_path is None,
        },
{
    RequestSpan {
        method: String::from_str(method),
        uri: String::from_str(uri),
        matched_path: match matched_path {
            Some(m) => Some(String::from_str(m)),
            None => None,
        },
    }
}

/// Registering a route changes no dispatch that already succeeded, and a
/// path not answered before now reaches exactly the new route's target.
pub proof fn lemma_route_for_push(routes: Seq<Route>, r: Route, path: Seq<char>)
    ensures
        spec_route_for(routes, path) is Some ==> spec_route_for(routes.push(r), path)
            == spec_route_for(routes, path),
        spec_route_for(routes, path) is None ==> spec_route_for(routes.push(r), path) == (
        if r.path@ == path {
            Some(r.target)
        } else {
            None
        }),
    decreases routes.len(),
{
    if routes.len() == 0 {
        assert(routes.push(r).len() == 1);
        assert(routes.push(r)[0] == r);
        assert(routes.push(r).drop_first() =~= Seq::<Route>::empty());
        assert(spec_route_for(Seq::<Route>::empty(), path) is None);
        if r.path@ == path {
            assert(spec_route_for(routes.push(r), path) == Some(r.target));
        } else {
            assert(spec_route_for(routes.push(r), path) == spec_route_for(
                routes.push(r).drop_first(),
                path,
            ));
        }
    } else {
        assert(routes.push(r)[0] == routes[0]);
        if routes[0].path@ == path {
            assert(spec_route_for(routes.push(r), path) == Some(routes[0].target));
        } else {
            assert(routes.push(r).drop_first() =~= routes.drop_first().push(r));
            lemma_route_for_push(routes.drop_first(), r, path);
            assert(spec_route_for(routes, path) == spec_route_for(routes.drop_first(), path));
            assert(spec_route_for(routes.push(r), path) == spec_route_for(
                routes.drop_first().push(r),
                path,
            ));
        }
    }
}

/// Registering two distinct suffixes in either order yields the same set of
/// answered paths, and — provided neither path was answered before — each
/// registration dispatches to its own handler in both orders.
pub proof fn lemma_add_route_order_independent(routes: Seq<Route>, a: Route, b: Route)
    requires
        a.path@ != b.path@,
        !spec_route_paths(routes).contains(a.path@),
        !spec_route_paths(routes).contains(b.path@),
    ensures
        spec_route_paths(routes.push(a).push(b)) == spec_route_paths(routes.push(b).push(a)),
        spec_route_for(routes.push(a).push(b), a.path@) == Some(a.target),
        spec_route_for(routes.push(b).push(a), a.path@) == Some(a.target),
        spec_route_for(routes.push(a).push(b), b.path@) == Some(b.target),
        spec_route_for(routes.push(b).push(a), b.path@) == Some(b.target),
{
    lemma_registration_order_irrelevant(routes, a, b);
    lemma_answers_iff_registered(routes, a.path@);
    lemma_answers_iff_registered(routes, b.path@);
    // a then b: `a` is found once pushed, and pushing `b` disturbs nothing.
    lemma_route_for_push(routes, a, a.path@);
    lemma_route_for_push(routes.push(a), b, a.path@);
    // b then a: `a` is still unanswered after `b`, then found.
    lemma_route_for_push(routes, b, a.path@);
    lemma_route_for_push(routes.push(b), a, a.path@);
    // and symmetrically for `b`.
    lemma_route_for_push(routes, b, b.path@);
    lemma_route_for_push(routes.push(b), a, b.path@);
    lemma_route_for_push(routes, a, b.path@);
    lemma_route_for_push(routes.push(a), b, b.path@);
}

/// Distinct suffixes are registered under distinct full paths, and equal
/// suffixes under equal ones: the `{path}/{version}/{suffix}` composition
/// is injective in the suffix.
pub proof fn lemma_full_path_injective(config: HttpConfig, s1: Seq<char>, s2: Seq<char>)
    ensures
        full_path_view(config, s1) == full_path_view(config, s2) <==> s1 == s2,
{
    let p = config.path@ + "/"@ + config.version@ + "/"@;
    assert(full_path_view(config, s1) == p + s1);
    assert(full_path_view(config, s2) == p + s2);
    if full_path_view(config, s1) == full_path_view(config, s2) {
        assert((p + s1).len() == (p + s2).len());
        assert(s1.len() == s2.len());
        assert forall|i: int| 0 <= i < s1.len() implies s1[i] == s2[i] by {
            assert((p + s1)[p.len() + i] == s1[i]);
            assert((p + s2)[p.len() + i] == s2[i]);
        }
        assert(s1 =~= s2);
    }
}

/// Registering routes is order-independent in structure: registering `a`
/// then `b` yields the same set of answered paths as registering `b` then
/// `a`.
pub proof fn lemma_registration_order_irrelevant(routes: Seq<Route>, a: Route, b: Route)
    ensures
        spec_route_paths(routes.push(a).push(b)) == spec_route_paths(routes.push(b).push(a)),
{
    let s1 = routes.push(a).push(b);
    let s2 = routes.push(b).push(a);
    assert forall|p: Seq<char>| spec_route_paths(s1).contains(p) implies spec_route_paths(
        s2,
    ).contains(p) by {
        let i = choose|i: int| 0 <= i < s1.len() && s1[i].path@ == p;
        if i < routes.len() {
            assert(s2[i].path@ == p);
        } else if i == routes.len() {
            assert(s2[routes.len() as int + 1].path@ == p);
        } else {
            assert(s2[routes.len() as int].path@ == p);
        }
    }
    assert forall|p: Seq<char>| spec_route_paths(s2).contains(p) implies spec_route_paths(
        s1,
    ).contains(p) by {
        let i = choose|i: int| 0 <= i < s2.len() && s2[i].path@ == p;
        if i < routes.len() {
            assert(s1[i].path@ == p);
        } else if i == routes.len() {
            assert(s1[routes.len() as int + 1].path@ == p);
        } else {
            assert(s1[routes.len() as int].path@ == p);
        }
    }
    assert(spec_route_paths(s1) =~= spec_route_paths(s2));
}

/// A route table dispatches a path exactly when some registered route
/// carries that path: lookup answers precisely the registered set.
pub proof fn lemma_answers_iff_registered(routes: Seq<Route>, path: Seq<char>)
    ensures
        spec_route_for(routes, path) is Some <==> spec_route_paths(routes).contains(path),
    decreases routes.len(),
{
    if routes.len() == 0 {
    } else if routes[0].path@ == path {
        assert(spec_route_paths(routes).contains(path));
    } else {
        lemma_answers_iff_registered(routes.drop_first(), path);
        assert forall|i: int| 0 <= i < routes.len() && routes[i].path@ == path implies routes
            .drop_first()[i - 1].path@ == path by {}
        if spec_route_paths(routes).contains(path) {
            let i = choose|i: int| 0 <= i < routes.len() && routes[i].path@ == path;
            assert(routes.drop_first()[i - 1].path@ == path);
            assert(spec_route_paths(routes.drop_first()).contains(path));
        }
        if spec_route_paths(routes.drop_first()).contains(path) {
            let i = choose|i: int| 0 <= i < routes.drop_first().len() && routes.drop_first()[i]
                .path@ == path;
            assert(routes[i + 1].path@ == path);
            assert(spec_route_paths(routes).contains(path));
        }
    }
}

/// Registration accumulates: every path answered before stays answered, and
/// the registered path itself is answered afterwards.
pub proof fn lemma_registration_preserves_answers(routes: Seq<Route>, r: Route, path: Seq<char>)
    ensures
        spec_route_paths(routes).contains(path) ==> spec_route_paths(routes.push(r)).contains(
            path,
        ),
        spec_route_paths(routes.push(r)).contains(r.path@),
{
    if spec_route_paths(routes).contains(path) {
        let i = choose|i: int| 0 <= i < routes.len() && routes[i].path@ == path;
        assert(routes.push(r)[i].path@ == path);
        assert(spec_route_paths(routes.push(r)).contains(path));
    }
    assert(routes.push(r)[routes.len() as int].path@ == r.path@);
    assert(spec_route_paths(routes.push(r)).contains(r.path@));
}

} // verus!
