//! The route compiler: endpoint declarations become a route table that
//! binds each method and path to what its requests are served with.

use vstd::prelude::*;
use vstd::string::*;
use std::sync::Arc;
use crate::config::{endpoint_views, EndpointConfig, EndpointView};
use crate::dispatch::{handle_request, may_respond, AppState, Response, ResponseView};
use crate::handler::{optional_view, ContextView, HandlerContext};
use crate::params::Params;
use crate::registry::SharedHandler;
use crate::text::{chars_of, contains_char, line_views, push_line, uppercase_of};

verus! {

/// The HTTP methods that a declaration may name.
#[derive(Clone, Copy, Debug, PartialEq, Eq, Structural)]
pub enum Method {
    Get,
    Post,
    Put,
    Delete,
}

/// The method that an upper-case name stands for.
pub open spec fn method_named(name: Seq<char>) -> Option<Method> {
    if name == "GET"@ {
        Some(Method::Get)
    } else if name == "POST"@ {
        Some(Method::Post)
    } else if name == "PUT"@ {
        Some(Method::Put)
    } else if name == "DELETE"@ {
        Some(Method::Delete)
    } else {
        None
    }
}

impl Method {
    /// The method's name, in upper case.
    pub open spec fn name(self) -> Seq<char> {
        match self {
            Method::Get => "GET"@,
            Method::Post => "POST"@,
            Method::Put => "PUT"@,
            Method::Delete => "DELETE"@,
        }
    }

    /// The method's name, in upper case.
    pub fn as_str(self) -> (name: &'static str)
        ensures
            name@ == self.name(),
    {
        match self {
            Method::Get => "GET",
            Method::Post => "POST",
            Method::Put => "PUT",
            Method::Delete => "DELETE",
        }
    }

    /// The method that `name` stands for; `name` is taken as it is, so only
    /// the upper-case names are methods.
    pub fn parse(name: &str) -> (method: Option<Method>)
        ensures
            method == method_named(name@),
    {
        if name.eq("GET") {
            Some(Method::Get)
        } else if name.eq("POST") {
            Some(Method::Post)
        } else if name.eq("PUT") {
            Some(Method::Put)
        } else if name.eq("DELETE") {
            Some(Method::Delete)
        } else {
            None
        }
    }
}

/// A path template has a placeholder when it holds both braces.
pub open spec fn has_placeholder(path: Seq<char>) -> bool {
    path.contains('{') && path.contains('}')
}

/// Tells whether a path template has a placeholder.
pub fn detect_placeholder(path: &str) -> (found: bool)
    ensures
        found == has_placeholder(path@),
{
    let chars = chars_of(path);
    contains_char(&chars, '{') && contains_char(&chars, '}')
}

/// One compiled declaration: what a request to its method and path is
/// served with.
pub struct Route {
    pub method: Method,
    /// The declared path template.
    pub path: String,
    /// The name of the handler.
    pub handler: String,
    /// The static response.
    pub response: String,
    pub params: Params,
    /// Whether the handler is given the captured path parameter in place of
    /// the declared path.
    pub has_path_params: bool,
}

/// A route with each string taken by its view.
pub struct RouteView {
    pub method: Method,
    pub path: Seq<char>,
    pub handler: Seq<char>,
    pub response: Seq<char>,
    pub params: Map<Seq<char>, Seq<char>>,
    pub has_path_params: bool,
}

/// What a route table is keyed by: method and declared path.
pub type RouteKey = (Method, Seq<char>);

impl RouteView {
    /// The key under which the route is bound.
    pub open spec fn key(self) -> RouteKey {
        (self.method, self.path)
    }

    /// The path that the handler is given: the captured value where the
    /// route has a placeholder, and the declared path otherwise, whatever
    /// the request's path was. A route with a placeholder serves no request
    /// without a captured value.
    pub open spec fn request_path(self, captured: Option<Seq<char>>) -> Option<Seq<char>> {
        if self.has_path_params {
            captured
        } else {
            Some(self.path)
        }
    }

    /// The context that the handler is given for a request path.
    pub open spec fn context(self, request_path: Seq<char>) -> ContextView {
        ContextView {
            path: request_path,
            params: self.params,
            static_response: Some(self.response),
        }
    }
}

impl View for Route {
    type V = RouteView;

    open spec fn view(&self) -> RouteView {
        RouteView {
            method: self.method,
            path: self.path@,
            handler: self.handler@,
            response: self.response@,
            params: self.params@,
            has_path_params: self.has_path_params,
        }
    }
}

impl Route {
    /// The context that the handler is given for a request path: the path,
    /// with copies of the route's parameters and static response.
    pub fn context(&self, request_path: String) -> (ctx: HandlerContext)
        ensures
            ctx@ == self@.context(request_path@),
    {
        HandlerContext {
            path: request_path,
            params: self.params.clone(),
            static_response: Some(self.response.clone()),
        }
    }

    /// The path that the handler is given; see `RouteView::request_path`.
    pub fn request_path(&self, captured: Option<String>) -> (path: Option<String>)
        ensures
            optional_view(path) == self@.request_path(optional_view(captured)),
    {
        if self.has_path_params {
            captured
        } else {
            Some(self.path.clone())
        }
    }
}

/// The route of a declaration whose method, in upper case, is `method`:
/// none where that is not the name of one of the four methods.
pub open spec fn compiled_as(endpoint: EndpointView, method: Seq<char>) -> Option<RouteView> {
    match method_named(method) {
        Some(m) => Some(
            RouteView {
                method: m,
                path: endpoint.path,
                handler: endpoint.handler,
                response: endpoint.response,
                params: endpoint.params,
                has_path_params: has_placeholder(endpoint.path),
            },
        ),
        None => None,
    }
}

/// The route that a declaration compiles to: none where its method, put in
/// upper case, is not one of the four.
pub open spec fn compiled(endpoint: EndpointView) -> Option<RouteView> {
    compiled_as(endpoint, uppercase_of(endpoint.method))
}

/// The view of an optional route.
pub open spec fn optional_route(route: Option<Route>) -> Option<RouteView> {
    match route {
        Some(r) => Some(r@),
        None => None,
    }
}

/// Compiles one declaration, given its method in upper case.
pub fn compile_with_method(endpoint: &EndpointConfig, method: &str) -> (route: Option<Route>)
    ensures
        optional_route(route) == compiled_as(endpoint@, method@),
{
    match Method::parse(method) {
        Some(m) => Some(
            Route {
                method: m,
                path: endpoint.path.clone(),
                handler: endpoint.handler.clone(),
                response: endpoint.response.clone(),
                params: endpoint.params.clone(),
                has_path_params: detect_placeholder(endpoint.path.as_str()),
            },
        ),
        None => None,
    }
}

/// Compiles one declaration.
pub fn compile(endpoint: &EndpointConfig) -> (route: Option<Route>)
    ensures
        optional_route(route) == compiled(endpoint@),
{
    let method = endpoint.method.as_str().to_uppercase();
    compile_with_method(endpoint, method.as_str())
}

/// The views of a list of routes.
pub open spec fn route_views(routes: Seq<Route>) -> Seq<RouteView> {
    routes.map_values(|r: Route| r@)
}

/// The table that a list of routes denotes: each route under its key, a
/// later route replacing an earlier one with the same key.
pub open spec fn route_table(routes: Seq<RouteView>) -> Map<RouteKey, RouteView>
    decreases routes.len(),
{
    if routes.len() == 0 {
        Map::empty()
    } else {
        route_table(routes.drop_last()).insert(routes.last().key(), routes.last())
    }
}

/// No two routes of the list have the same key.
pub open spec fn distinct_keys(routes: Seq<RouteView>) -> bool {
    forall|i: int, j: int|
        0 <= i < j < routes.len() ==> (#[trigger] routes[i]).key() != (#[trigger] routes[j]).key()
}

/// The table that a list of declarations compiles to: the declarations are
/// taken in order, one with an unsupported method is passed over, and a
/// later declaration replaces an earlier one with the same method and path.
pub open spec fn compile_all(endpoints: Seq<EndpointView>) -> Map<RouteKey, RouteView>
    decreases endpoints.len(),
{
    if endpoints.len() == 0 {
        Map::empty()
    } else {
        let before = compile_all(endpoints.drop_last());
        match compiled(endpoints.last()) {
            Some(route) => before.insert(route.key(), route),
            None => before,
        }
    }
}

/// The warning for a declaration with an unsupported method.
pub open spec fn unsupported_method_warning(endpoint: EndpointView) -> Seq<char> {
    "Unsupported HTTP method: "@ + uppercase_of(endpoint.method)
}

/// The warnings that compiling a list of declarations gives: one for each
/// declaration with an unsupported method, in order.
pub open spec fn compile_warnings(endpoints: Seq<EndpointView>) -> Seq<Seq<char>>
    decreases endpoints.len(),
{
    if endpoints.len() == 0 {
        Seq::empty()
    } else {
        let before = compile_warnings(endpoints.drop_last());
        match compiled(endpoints.last()) {
            Some(_) => before,
            None => before.push(unsupported_method_warning(endpoints.last())),
        }
    }
}

/// A table holds exactly the keys of its routes.
pub proof fn lemma_route_table_keys(routes: Seq<RouteView>, key: RouteKey)
    ensures
        route_table(routes).contains_key(key) <==> exists|i: int|
            0 <= i < routes.len() && (#[trigger] routes[i]).key() == key,
    decreases routes.len(),
{
    if routes.len() > 0 {
        lemma_route_table_keys(routes.drop_last(), key);
        if route_table(routes).contains_key(key) {
            if routes.last().key() == key {
                assert(routes[routes.len() - 1].key() == key);
            } else {
                let i = choose|i: int|
                    0 <= i < routes.drop_last().len() && (#[trigger] routes.drop_last()[i]).key()
                        == key;
                assert(routes[i].key() == key);
            }
        }
        if exists|i: int| 0 <= i < routes.len() && (#[trigger] routes[i]).key() == key {
            let i = choose|i: int| 0 <= i < routes.len() && (#[trigger] routes[i]).key() == key;
            if i < routes.len() - 1 {
                assert(routes.drop_last()[i].key() == key);
            }
        }
    }
}

/// Where the keys are distinct, each route is bound under its key.
pub proof fn lemma_route_table_binds(routes: Seq<RouteView>, at: int)
    requires
        0 <= at < routes.len(),
        distinct_keys(routes),
    ensures
        route_table(routes).contains_key(routes[at].key()),
        route_table(routes)[routes[at].key()] == routes[at],
    decreases routes.len(),
{
    if at < routes.len() - 1 {
        assert(routes[at].key() != routes[routes.len() - 1].key());
        assert forall|i: int, j: int| 0 <= i < j < routes.drop_last().len() implies (
        #[trigger] routes.drop_last()[i]).key() != (#[trigger] routes.drop_last()[j]).key() by {
            assert(routes[i].key() != routes[j].key());
        }
        lemma_route_table_binds(routes.drop_last(), at);
    }
}

/// Replacing a route by one with the same key, in a list with distinct
/// keys, rebinds that key and keeps the keys distinct.
pub proof fn lemma_route_table_update(routes: Seq<RouteView>, at: int, route: RouteView)
    requires
        0 <= at < routes.len(),
        distinct_keys(routes),
        routes[at].key() == route.key(),
    ensures
        distinct_keys(routes.update(at, route)),
        route_table(routes.update(at, route)) == route_table(routes).insert(route.key(), route),
    decreases routes.len(),
{
    let updated = routes.update(at, route);
    assert forall|i: int, j: int| 0 <= i < j < updated.len() implies (#[trigger] updated[i]).key()
        != (#[trigger] updated[j]).key() by {
        assert(routes[i].key() != routes[j].key());
    }
    if at == routes.len() - 1 {
        assert(updated.drop_last() =~= routes.drop_last());
        assert(route_table(updated) =~= route_table(routes).insert(route.key(), route));
    } else {
        assert(routes[at].key() != routes[routes.len() - 1].key());
        assert forall|i: int, j: int| 0 <= i < j < routes.drop_last().len() implies (
        #[trigger] routes.drop_last()[i]).key() != (#[trigger] routes.drop_last()[j]).key() by {
            assert(routes[i].key() != routes[j].key());
        }
        lemma_route_table_update(routes.drop_last(), at, route);
        assert(updated.drop_last() =~= routes.drop_last().update(at, route));
        assert(route_table(updated) =~= route_table(routes).insert(route.key(), route));
    }
}

/// Appending a route whose key is new keeps the keys distinct.
pub proof fn lemma_route_table_push(routes: Seq<RouteView>, route: RouteView)
    requires
        distinct_keys(routes),
        forall|i: int| 0 <= i < routes.len() ==> (#[trigger] routes[i]).key() != route.key(),
    ensures
        distinct_keys(routes.push(route)),
        route_table(routes.push(route)) == route_table(routes).insert(route.key(), route),
{
    let pushed = routes.push(route);
    assert(pushed.drop_last() =~= routes);
    assert forall|i: int, j: int| 0 <= i < j < pushed.len() implies (#[trigger] pushed[i]).key()
        != (#[trigger] pushed[j]).key() by {
        if j < routes.len() {
            assert(routes[i].key() != routes[j].key());
        } else {
            assert(routes[i].key() != route.key());
        }
    }
}

/// Binds `route` in the list: it replaces the route with its key where
/// there is one, and is appended otherwise.
fn bind(routes: &mut Vec<Route>, route: Route)
    requires
        distinct_keys(route_views(old(routes)@)),
    ensures
        distinct_keys(route_views(final(routes)@)),
        route_table(route_views(final(routes)@)) == route_table(route_views(old(routes)@)).insert(
            route@.key(),
            route@,
        ),
{
    let mut i: usize = 0;
    while i < routes.len()
        invariant
            i <= routes@.len(),
            *routes == *old(routes),
            distinct_keys(route_views(routes@)),
            forall|k: int| 0 <= k < i ==> (#[trigger] route_views(routes@)[k]).key() != route@.key(),
        decreases routes@.len() - i,
    {
        if routes[i].method == route.method && routes[i].path.as_str().eq(route.path.as_str()) {
            proof {
                lemma_route_table_update(route_views(routes@), i as int, route@);
                assert(route_views(routes@.update(i as int, route)) =~= route_views(
                    routes@,
                ).update(i as int, route@));
            }
            routes.set(i, route);
            return ;
        }
        i = i + 1;
    }
    proof {
        lemma_route_table_push(route_views(routes@), route@);
        assert(route_views(routes@.push(route)) =~= route_views(routes@).push(route@));
    }
    routes.push(route);
}

/// A compiled route table together with the state that its routes are
/// served from. Its view is the `Map` from method and declared path to the
/// route bound there.
pub struct Router {
    routes: Vec<Route>,
    warnings: Vec<String>,
    state: Arc<AppState>,
}

impl View for Router {
    type V = Map<RouteKey, RouteView>;

    closed spec fn view(&self) -> Self::V {
        route_table(route_views(self.routes@))
    }
}

impl Router {
    #[verifier::type_invariant]
    spec fn keys_are_distinct(&self) -> bool {
        distinct_keys(route_views(self.routes@))
    }

    /// The state that the routes are served from.
    pub closed spec fn state(&self) -> Arc<AppState> {
        self.state
    }

    /// The warnings that compiling gave.
    pub closed spec fn warnings(&self) -> Seq<Seq<char>> {
        line_views(self.warnings@)
    }

    /// The state that the routes are served from.
    pub fn app_state(&self) -> (state: &Arc<AppState>)
        ensures
            *state == self.state(),
    {
        &self.state
    }

    /// The warnings that compiling gave, one for each declaration that was
    /// passed over.
    pub fn compile_warnings(&self) -> (warnings: &Vec<String>)
        ensures
            line_views(warnings@) == self.warnings(),
    {
        &self.warnings
    }

    /// The routes of the table, each key once.
    pub fn routes(&self) -> (routes: &Vec<Route>)
        ensures
            distinct_keys(route_views(routes@)),
            route_table(route_views(routes@)) == self@,
    {
        proof {
            use_type_invariant(self);
        }
        &self.routes
    }

    /// The route bound to `method` and the declared path `path`.
    pub fn find(&self, method: Method, path: &str) -> (route: Option<&Route>)
        ensures
            optional_route_ref(route) == self@.get((method, path@)),
    {
        proof {
            use_type_invariant(self);
        }
        let mut i: usize = 0;
        while i < self.routes.len()
            invariant
                i <= self.routes@.len(),
                forall|k: int|
                    0 <= k < i ==> (#[trigger] route_views(self.routes@)[k]).key() != (
                        method,
                        path@,
                    ),
                distinct_keys(route_views(self.routes@)),
            decreases self.routes@.len() - i,
        {
            if self.routes[i].method == method && self.routes[i].path.as_str().eq(path) {
                proof {
                    lemma_route_table_binds(route_views(self.routes@), i as int);
                }
                return Some(&self.routes[i]);
            }
            i = i + 1;
        }
        proof {
            lemma_route_table_keys(route_views(self.routes@), (method, path@));
        }
        None
    }

    /// Serves a request that the transport matched to the route bound to
    /// `method` and the declared path `path`, with the path parameter that
    /// it captured, if any. No response is given where no such route is
    /// bound, or where the route has a placeholder and nothing was captured.
    pub fn handle(&self, method: Method, path: &str, captured: Option<String>) -> (answer: Option<
        Response,
    >)
        ensures
            serves(self@, self.state().handler_registry@, method, path@, optional_view(captured),
                optional_response(answer)),
    {
        match self.find(method, path) {
            Some(route) => match route.request_path(captured) {
                Some(request_path) => Some(
                    handle_request(
                        &self.state,
                        request_path,
                        method.as_str().to_owned(),
                        route.handler.clone(),
                        route.response.clone(),
                        route.params.clone(),
                    ),
                ),
                None => None,
            },
            None => None,
        }
    }
}

/// The view of an optional borrowed route.
pub open spec fn optional_route_ref(route: Option<&Route>) -> Option<RouteView> {
    match route {
        Some(r) => Some(r@),
        None => None,
    }
}

/// The view of an optional response.
pub open spec fn optional_response(response: Option<Response>) -> Option<ResponseView> {
    match response {
        Some(r) => Some(r@),
        None => None,
    }
}

/// Whether `answer` may be what a table gives a request: nothing where no
/// route is bound to the method and declared path, or where the route wants
/// a captured value and there is none; else a response that the handler
/// named by the route may give to the route's context.
pub open spec fn serves(
    table: Map<RouteKey, RouteView>,
    handlers: Map<Seq<char>, SharedHandler>,
    method: Method,
    path: Seq<char>,
    captured: Option<Seq<char>>,
    answer: Option<ResponseView>,
) -> bool {
    if table.contains_key((method, path)) {
        let route = table[(method, path)];
        match route.request_path(captured) {
            Some(request_path) => answer is Some && may_respond(
                handlers,
                route.handler,
                route.context(request_path),
                answer->Some_0,
            ),
            None => answer is None,
        }
    } else {
        answer is None
    }
}

/// Compiles the endpoint declarations of `state` into a route table.
/// A declaration with an unsupported method is passed over with a warning;
/// of two declarations with the same method and path the later one is
/// bound.
pub fn create_router(state: Arc<AppState>) -> (router: Router)
    ensures
        router@ == compile_all(endpoint_views(state.config.endpoints@)),
        router.warnings() == compile_warnings(endpoint_views(state.config.endpoints@)),
        router.state() == state,
{
    let mut routes: Vec<Route> = Vec::new();
    let mut warnings: Vec<String> = Vec::new();
    let mut i: usize = 0;
    while i < state.config.endpoints.len()
        invariant
            i <= state.config.endpoints@.len(),
            distinct_keys(route_views(routes@)),
            route_table(route_views(routes@)) == compile_all(
                endpoint_views(state.config.endpoints@).take(i as int),
            ),
            line_views(warnings@) == compile_warnings(
                endpoint_views(state.config.endpoints@).take(i as int),
            ),
        decreases state.config.endpoints@.len() - i,
    {
        let endpoint = &state.config.endpoints[i];
        proof {
            let all = endpoint_views(state.config.endpoints@);
            assert(all.take(i as int + 1).drop_last() =~= all.take(i as int));
            assert(all.take(i as int + 1).last() == endpoint@);
        }
        let method = endpoint.method.as_str().to_uppercase();
        match compile_with_method(endpoint, method.as_str()) {
            Some(route) => {
                bind(&mut routes, route);
            },
            None => {
                let mut warning = String::from_str("Unsupported HTTP method: ");
                warning.append(method.as_str());
                push_line(&mut warnings, warning);
            },
        }
        i = i + 1;
    }
    proof {
        let all = endpoint_views(state.config.endpoints@);
        assert(all.take(i as int) =~= all);
    }
    Router { routes, warnings, state }
}

/// Of the declarations with one method and path, the last one is bound: a
/// declaration that compiles is in the table under its key when no later
/// declaration compiles to that key.
pub proof fn lemma_last_declaration_wins(endpoints: Seq<EndpointView>, at: int)
    requires
        0 <= at < endpoints.len(),
        compiled(endpoints[at]) is Some,
        forall|j: int|
            at < j < endpoints.len() && (#[trigger] compiled(endpoints[j])) is Some ==> compiled(
                endpoints[j],
            )->Some_0.key() != compiled(endpoints[at])->Some_0.key(),
    ensures
        compile_all(endpoints).contains_key(compiled(endpoints[at])->Some_0.key()),
        compile_all(endpoints)[compiled(endpoints[at])->Some_0.key()] == compiled(
            endpoints[at],
        )->Some_0,
    decreases endpoints.len(),
{
    if at < endpoints.len() - 1 {
        let last = endpoints.len() - 1;
        assert(compiled(endpoints[last]) is Some ==> compiled(endpoints[last])->Some_0.key()
            != compiled(endpoints[at])->Some_0.key());
        assert forall|j: int|
            at < j < endpoints.drop_last().len() && (#[trigger] compiled(
                endpoints.drop_last()[j],
            )) is Some implies compiled(endpoints.drop_last()[j])->Some_0.key() != compiled(
            endpoints.drop_last()[at],
        )->Some_0.key() by {
            assert(compiled(endpoints[j]) is Some);
        }
        lemma_last_declaration_wins(endpoints.drop_last(), at);
    }
}

/// A declaration with an unsupported method changes nothing: the table is
/// the one that the other declarations compile to.
pub proof fn lemma_unsupported_is_skipped(endpoints: Seq<EndpointView>, at: int)
    requires
        0 <= at < endpoints.len(),
        compiled(endpoints[at]) is None,
    ensures
        compile_all(endpoints) == compile_all(endpoints.remove(at)),
    decreases endpoints.len(),
{
    if at == endpoints.len() - 1 {
        assert(endpoints.remove(at) =~= endpoints.drop_last());
    } else {
        lemma_unsupported_is_skipped(endpoints.drop_last(), at);
        assert(endpoints.remove(at).drop_last() =~= endpoints.drop_last().remove(at));
        assert(endpoints.remove(at).last() == endpoints.last());
    }
}

/// The table holds a key exactly when some declaration compiles to it.
pub proof fn lemma_compile_all_keys(endpoints: Seq<EndpointView>, key: RouteKey)
    ensures
        compile_all(endpoints).contains_key(key) <==> exists|i: int|
            0 <= i < endpoints.len() && (#[trigger] compiled(endpoints[i])) is Some && compiled(
                endpoints[i],
            )->Some_0.key() == key,
    decreases endpoints.len(),
{
    if endpoints.len() > 0 {
        let before = endpoints.drop_last();
        let last = endpoints.len() - 1;
        lemma_compile_all_keys(before, key);
        if compile_all(endpoints).contains_key(key) {
            if compiled(endpoints[last]) is Some && compiled(endpoints[last])->Some_0.key() == key {
            } else {
                let i = choose|i: int|
                    0 <= i < before.len() && (#[trigger] compiled(before[i])) is Some && compiled(
                        before[i],
                    )->Some_0.key() == key;
                assert(compiled(endpoints[i]) is Some);
            }
        }
        if exists|i: int|
            0 <= i < endpoints.len() && (#[trigger] compiled(endpoints[i])) is Some && compiled(
                endpoints[i],
            )->Some_0.key() == key {
            let i = choose|i: int|
                0 <= i < endpoints.len() && (#[trigger] compiled(endpoints[i])) is Some && compiled(
                    endpoints[i],
                )->Some_0.key() == key;
            if i < last {
                assert(compiled(before[i]) is Some);
            }
        }
    }
}

/// The path that a handler sees: for a declaration without a placeholder
/// its declared path, whatever the request; for one with a placeholder the
/// value captured from the request.
pub proof fn lemma_context_path(endpoint: EndpointView, captured: Option<Seq<char>>)
    requires
        compiled(endpoint) is Some,
    ensures
        !has_placeholder(endpoint.path) ==> compiled(endpoint)->Some_0.request_path(captured)
            == Some(endpoint.path),
        has_placeholder(endpoint.path) ==> compiled(endpoint)->Some_0.request_path(captured)
            == captured,
{
}

} // verus!
