//! Data-driven request routing: an ordered table of (method, path,
//! host-guard, handler) entries, evaluated top to bottom. A request is
//! dispatched to the first entry whose method and path match and whose
//! guard, if any, is satisfied by the request's Host header; a request
//! matching no entry falls through to the framework's default
//! not-found response.

use vstd::prelude::*;

verus! {

/// The request methods the table distinguishes: every registered route
/// answers GET, so anything else is lumped together.
#[derive(Clone, Copy, PartialEq, Eq, Structural, Debug)]
pub enum Method {
    Get,
    Other,
}

/// The handlers a route can name.
#[derive(Clone, Copy, PartialEq, Eq, Structural, Debug)]
pub enum Handler {
    /// `GET /`: greeting with the application name and CPU counts.
    Index,
    /// `GET /api`: fixed API index text.
    ApiIndex,
    /// `GET /api/count`: increment the shared counter and report it.
    Count,
    /// `GET /api/hello`: fixed greeting text.
    Hello,
    /// `GET /api/user`: the one-field JSON record.
    User,
}

/// One entry of the route table.
pub struct Route {
    pub method: Method,
    pub path: String,
    /// `Some(h)`: only requests whose Host header equals `h` match.
    pub required_host: Option<String>,
    pub handler: Handler,
}

/// The parts of an inbound request that routing reads.
pub struct Request {
    pub method: Method,
    pub path: String,
    /// The Host header, if the request carried one.
    pub host: Option<String>,
}

/// Does the request satisfy the route's host guard?
pub open spec fn spec_guard_ok(route: Route, req: Request) -> bool {
    match route.required_host {
        Option::None => true,
        Option::Some(required) => match req.host {
            Option::None => false,
            Option::Some(given) => given@ == required@,
        },
    }
}

/// Does the route match the request: method, path and guard?
pub open spec fn spec_route_matches(route: Route, req: Request) -> bool {
    &&& route.method == req.method
    &&& route.path@ == req.path@
    &&& spec_guard_ok(route, req)
}

/// First-match dispatch over the table, top to bottom.
pub open spec fn spec_dispatch(routes: Seq<Route>, req: Request) -> Option<Handler>
    decreases routes.len(),
{
    if routes.len() == 0 {
        Option::None
    } else if spec_route_matches(routes[0], req) {
        Option::Some(routes[0].handler)
    } else {
        spec_dispatch(routes.drop_first(), req)
    }
}

/// Dispatch characterized without recursion: no handler comes back
/// exactly when no route matches, and a handler that does come back is
/// the one of the first matching route.
pub proof fn lemma_dispatch_first_match(routes: Seq<Route>, req: Request)
    ensures
        spec_dispatch(routes, req) is None <==> (forall|i: int|
            0 <= i < routes.len() ==> !spec_route_matches(#[trigger] routes[i], req)),
        spec_dispatch(routes, req) matches Option::Some(h) ==> exists|i: int|
            {
                &&& 0 <= i < routes.len()
                &&& spec_route_matches(#[trigger] routes[i], req)
                &&& routes[i].handler == h
                &&& forall|j: int| 0 <= j < i ==> !spec_route_matches(#[trigger] routes[j], req)
            },
    decreases routes.len(),
{
    if routes.len() > 0 {
        let rest = routes.drop_first();
        lemma_dispatch_first_match(rest, req);
        if !spec_route_matches(routes[0], req) {
            match spec_dispatch(rest, req) {
                Option::None => {
                    assert forall|i: int|
                        0 <= i < routes.len() implies !spec_route_matches(
                        #[trigger] routes[i],
                        req,
                    ) by {
                        if i > 0 {
                            assert(routes[i] == rest[i - 1]);
                            assert(!spec_route_matches(rest[i - 1], req));
                        }
                    }
                },
                Option::Some(h) => {
                    let i = choose|i: int|
                        {
                            &&& 0 <= i < rest.len()
                            &&& spec_route_matches(#[trigger] rest[i], req)
                            &&& rest[i].handler == h
                            &&& forall|j: int|
                                0 <= j < i ==> !spec_route_matches(#[trigger] rest[j], req)
                        };
                    assert(routes[i + 1] == rest[i]);
                    assert(spec_route_matches(routes[i + 1], req));
                    assert forall|j: int|
                        0 <= j < i + 1 implies !spec_route_matches(
                        #[trigger] routes[j],
                        req,
                    ) by {
                        if j > 0 {
                            assert(routes[j] == rest[j - 1]);
                            assert(!spec_route_matches(rest[j - 1], req));
                        }
                    }
                },
            }
        } else {
            assert(spec_route_matches(routes[0], req));
        }
    } else {
        if spec_dispatch(routes, req) is None {
            assert(forall|i: int|
                0 <= i < routes.len() ==> !spec_route_matches(#[trigger] routes[i], req));
        }
    }
}

/// Does the request satisfy the route's host guard? (Executable.)
fn guard_ok(route: &Route, req: &Request) -> (ok: bool)
    ensures
        ok == spec_guard_ok(*route, *req),
{
    match &route.required_host {
        Option::None => true,
        Option::Some(required) => match &req.host {
            Option::None => false,
            Option::Some(given) => *given == *required,
        },
    }
}

/// Find the handler for `req`: the first table entry that matches.
pub fn dispatch(routes: &Vec<Route>, req: &Request) -> (h: Option<Handler>)
    ensures
        h == spec_dispatch(routes@, *req),
{
    proof {
        assert(routes@.skip(0) =~= routes@);
    }
    let n = routes.len();
    let mut i: usize = 0;
    while i < n
        invariant
            i <= n,
            n == routes@.len(),
            spec_dispatch(routes@, *req) == spec_dispatch(routes@.skip(i as int), *req),
        decreases n - i,
    {
        let route = &routes[i];
        let matched = route.method == req.method && route.path == req.path && guard_ok(
            route,
            req,
        );
        proof {
            let rest = routes@.skip(i as int);
            assert(rest[0] == routes@[i as int]);
            assert(rest.drop_first() =~= routes@.skip(i as int + 1));
        }
        if matched {
            return Option::Some(route.handler);
        }
        i = i + 1;
    }
    proof {
        assert(routes@.skip(n as int) =~= Seq::<Route>::empty());
    }
    Option::None
}

/// The Host value that guards the API scope.
pub open spec fn spec_api_host() -> Seq<char> {
    "localhost:3000"@
}

/// The whole table, entry by entry: `GET /` and `GET /api/user` are
/// open; the rest of the `/api` scope is guarded by the Host header.
pub open spec fn spec_route_table(routes: Seq<Route>) -> bool {
    &&& routes.len() == 5
    &&& routes[0].method == Method::Get
    &&& routes[0].path@ == "/"@
    &&& routes[0].required_host is None
    &&& routes[0].handler == Handler::Index
    &&& routes[1].method == Method::Get
    &&& routes[1].path@ == "/api"@
    &&& routes[1].required_host matches Option::Some(h) && h@ == spec_api_host()
    &&& routes[1].handler == Handler::ApiIndex
    &&& routes[2].method == Method::Get
    &&& routes[2].path@ == "/api/count"@
    &&& routes[2].required_host matches Option::Some(h) && h@ == spec_api_host()
    &&& routes[2].handler == Handler::Count
    &&& routes[3].method == Method::Get
    &&& routes[3].path@ == "/api/hello"@
    &&& routes[3].required_host matches Option::Some(h) && h@ == spec_api_host()
    &&& routes[3].handler == Handler::Hello
    &&& routes[4].method == Method::Get
    &&& routes[4].path@ == "/api/user"@
    &&& routes[4].required_host is None
    &&& routes[4].handler == Handler::User
}

/// Build the route table registered at startup.
pub fn route_table() -> (routes: Vec<Route>)
    ensures
        spec_route_table(routes@),
{
    let mut routes: Vec<Route> = Vec::new();
    routes.push(
        Route {
            method: Method::Get,
            path: String::from_str("/"),
            required_host: Option::None,
            handler: Handler::Index,
        },
    );
    routes.push(
        Route {
            method: Method::Get,
            path: String::from_str("/api"),
            required_host: Option::Some(String::from_str("localhost:3000")),
            handler: Handler::ApiIndex,
        },
    );
    routes.push(
        Route {
            method: Method::Get,
            path: String::from_str("/api/count"),
            required_host: Option::Some(String::from_str("localhost:3000")),
            handler: Handler::Count,
        },
    );
    routes.push(
        Route {
            method: Method::Get,
            path: String::from_str("/api/hello"),
            required_host: Option::Some(String::from_str("localhost:3000")),
            handler: Handler::Hello,
        },
    );
    routes.push(
        Route {
            method: Method::Get,
            path: String::from_str("/api/user"),
            required_host: Option::None,
            handler: Handler::User,
        },
    );
    routes
}

} // verus!
