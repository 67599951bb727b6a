//! The HTTP surface: which endpoints exist and what each one answers.
//!
//! A handler here is a function from what the request brought (and, for the
//! health check, from how the database probe went) to a status code and a
//! body. Reading the request, running the probe and encoding the body are the
//! binary's business.

use vstd::prelude::*;

verus! {

/// Status code of a plain success.
pub const STATUS_OK: u16 = 200;

/// Status code that reports a created resource.
pub const STATUS_CREATED: u16 = 201;

/// Identifier handed out for every created user. Nothing is stored, so
/// nothing is counted.
pub const CREATED_USER_ID: u32 = 1;

/// A user as it travels in request and response bodies.
#[derive(Clone, Debug, PartialEq, Eq)]
pub struct User {
    /// Absent in requests; a value sent by the client is ignored.
    pub id: Option<u32>,
    pub name: String,
    pub email: String,
}

/// Mathematical value of a [`User`].
pub struct UserView {
    pub id: Option<u32>,
    pub name: Seq<char>,
    pub email: Seq<char>,
}

impl View for User {
    type V = UserView;

    open spec fn view(&self) -> UserView {
        UserView { id: self.id, name: self.name@, email: self.email@ }
    }
}

/// Body of the health check's answer.
#[derive(Clone, Debug, PartialEq, Eq)]
pub struct HealthResponse {
    /// State of the service itself.
    pub status: String,
    /// State of the database as the probe found it.
    pub database: String,
}

/// Mathematical value of a [`HealthResponse`].
pub struct HealthResponseView {
    pub status: Seq<char>,
    pub database: Seq<char>,
}

impl View for HealthResponse {
    type V = HealthResponseView;

    open spec fn view(&self) -> HealthResponseView {
        HealthResponseView { status: self.status@, database: self.database@ }
    }
}

/// The text served at the root.
pub open spec fn greeting() -> Seq<char> {
    "Welcome to Axum API with MySQL!"@
}

/// The health report for a database that did or did not answer the probe.
pub open spec fn health_report(database_answered: bool) -> HealthResponseView {
    HealthResponseView {
        status: "ok"@,
        database: if database_answered {
            "connected"@
        } else {
            "disconnected"@
        },
    }
}

/// The record answered for a creation request that carried `payload`.
pub open spec fn created_user(payload: UserView) -> UserView {
    UserView { id: Some(CREATED_USER_ID), name: payload.name, email: payload.email }
}

/// Answers `GET /`: the greeting, always, with a plain success.
pub fn root() -> (response: (u16, &'static str))
    ensures
        response.0 == STATUS_OK,
        response.1@ == greeting(),
{
    (STATUS_OK, "Welcome to Axum API with MySQL!")
}

/// Answers `GET /health` from the outcome of a database probe.
///
/// The answer is a success whether or not the database is reachable; only
/// the body tells the two apart. What went wrong with the probe is not
/// looked at.
pub fn health_check<E>(probe: &Result<(), E>) -> (response: (u16, HealthResponse))
    ensures
        response.0 == STATUS_OK,
        response.1@ == health_report(probe is Ok),
{
    let database = match probe {
        Ok(_) => "connected",
        Err(_) => "disconnected",
    };
    (STATUS_OK, HealthResponse { status: "ok".to_owned(), database: database.to_owned() })
}

/// Answers `POST /users` for a decoded body.
///
/// Name and email are echoed; the identifier is always
/// [`CREATED_USER_ID`], whatever the request carried. Nothing is stored. A
/// request whose body cannot be decoded is turned away by the framework and
/// never gets here.
pub fn create_user(payload: User) -> (response: (u16, User))
    ensures
        response.0 == STATUS_CREATED,
        response.1@ == created_user(payload@),
{
    (STATUS_CREATED, User { id: Some(CREATED_USER_ID), name: payload.name, email: payload.email })
}

/// Request method of a binding.
#[derive(Clone, Copy, Debug, PartialEq, Eq, Structural)]
pub enum Method {
    Get,
    Post,
}

/// The handlers of this service.
#[derive(Clone, Copy, Debug, PartialEq, Eq, Structural)]
pub enum Endpoint {
    /// [`root`].
    Root,
    /// [`health_check`].
    Health,
    /// [`create_user`].
    CreateUser,
}

/// One line of the route table: requests with this method for exactly this
/// path go to this endpoint.
#[derive(Clone, Copy, Debug, PartialEq, Eq)]
pub struct Route {
    pub method: Method,
    pub path: &'static str,
    pub endpoint: Endpoint,
}

/// Mathematical value of a [`Route`].
pub struct RouteView {
    pub method: Method,
    pub path: Seq<char>,
    pub endpoint: Endpoint,
}

impl View for Route {
    type V = RouteView;

    open spec fn view(&self) -> RouteView {
        RouteView { method: self.method, path: self.path@, endpoint: self.endpoint }
    }
}

/// The bindings of the service, in the order in which they are registered.
pub open spec fn bindings() -> Seq<RouteView> {
    seq![
        RouteView { method: Method::Get, path: "/"@, endpoint: Endpoint::Root },
        RouteView { method: Method::Get, path: "/health"@, endpoint: Endpoint::Health },
        RouteView { method: Method::Post, path: "/users"@, endpoint: Endpoint::CreateUser },
    ]
}

/// The route table: the three bindings the router is built from.
pub fn route_table() -> (routes: Vec<Route>)
    ensures
        routes@.map_values(|route: Route| route@) == bindings(),
{
    let mut routes: Vec<Route> = Vec::new();
    routes.push(Route { method: Method::Get, path: "/", endpoint: Endpoint::Root });
    routes.push(Route { method: Method::Get, path: "/health", endpoint: Endpoint::Health });
    routes.push(Route { method: Method::Post, path: "/users", endpoint: Endpoint::CreateUser });
    assert(routes@.map_values(|route: Route| route@) =~= bindings());
    routes
}

/// No two bindings share a path or an endpoint, so registering them one
/// after the other never meets a path that is already taken.
pub proof fn law_bindings_do_not_overlap(i: int, j: int)
    requires
        0 <= i < j < bindings().len(),
    ensures
        bindings()[i].path != bindings()[j].path,
        bindings()[i].endpoint != bindings()[j].endpoint,
{
    reveal_strlit("/");
    reveal_strlit("/health");
    reveal_strlit("/users");
    assert("/"@.len() == 1 && "/health"@.len() == 7 && "/users"@.len() == 6);
}

/// Every endpoint is reachable: the table has a binding for it.
pub proof fn law_every_endpoint_is_bound(endpoint: Endpoint)
    ensures
        exists|i: int| 0 <= i < bindings().len() && (#[trigger] bindings()[i]).endpoint == endpoint,
{
    match endpoint {
        Endpoint::Root => {
            assert(bindings()[0].endpoint == endpoint);
        },
        Endpoint::Health => {
            assert(bindings()[1].endpoint == endpoint);
        },
        Endpoint::CreateUser => {
            assert(bindings()[2].endpoint == endpoint);
        },
    }
}

/// Behaviour wrapped round every route.
#[derive(Clone, Copy, Debug, PartialEq, Eq, Structural)]
pub enum Middleware {
    /// Records each request and its outcome in the log.
    RequestTrace,
    /// Adds headers that let a browser page of any origin read the response;
    /// any method and any request header is allowed.
    PermissiveCors,
}

/// The middleware of the service from the innermost layer outwards.
pub open spec fn layers() -> Seq<Middleware> {
    seq![Middleware::RequestTrace, Middleware::PermissiveCors]
}

/// The middleware to wrap round the router, innermost first: each layer
/// encloses the router and all layers before it.
pub fn middleware_stack() -> (stack: Vec<Middleware>)
    ensures
        stack@ == layers(),
{
    let mut stack: Vec<Middleware> = Vec::new();
    stack.push(Middleware::RequestTrace);
    stack.push(Middleware::PermissiveCors);
    assert(stack@ =~= layers());
    stack
}

/// The cross-origin layer is the outermost one: no response leaves the
/// service without passing through it, whichever route or inner layer
/// produced it.
pub proof fn law_cors_is_outermost()
    ensures
        layers().len() > 0,
        layers().last() == Middleware::PermissiveCors,
{
}

} // verus!
