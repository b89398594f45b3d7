//! The route table: which handler answers which method and path.

use vstd::prelude::*;
use vstd::string::StringSliceAdditionalSpecFns;
use crate::text::{bytes_eq, has_prefix, starts_with, SLASH};

verus! {

/// What answers a request.
#[derive(Clone, Copy, Debug, PartialEq, Eq, Structural)]
pub enum Handler {
    /// The index page.
    Index,
    /// The about page.
    About,
    /// The icon file.
    Favicon,
    /// The style sheet file.
    Styles,
    /// The assets directory: every path below the route's own.
    Assets,
}

/// One entry of the route table.
#[derive(Debug, PartialEq, Eq)]
pub struct Route {
    pub method: &'static str,
    pub path: &'static str,
    pub handler: Handler,
}

/// What a route holds, method and path as bytes.
pub struct RouteView {
    pub method: Seq<u8>,
    pub path: Seq<u8>,
    pub handler: Handler,
}

impl View for Route {
    type V = RouteView;

    open spec fn view(&self) -> RouteView {
        RouteView {
            method: self.method.spec_bytes(),
            path: self.path.spec_bytes(),
            handler: self.handler,
        }
    }
}

/// `path` lies below the directory `mount`: it is `mount`, a `/` and
/// anything.
pub open spec fn is_below(path: Seq<u8>, mount: Seq<u8>) -> bool {
    starts_with(path, mount + seq![SLASH])
}

/// The route answers the request: the method is its method, and the path is
/// its path or, for the assets directory, lies below it.
pub open spec fn route_matches(route: RouteView, method: Seq<u8>, path: Seq<u8>) -> bool {
    &&& route.method == method
    &&& (path == route.path || (route.handler == Handler::Assets && is_below(path, route.path)))
}

/// The index of the first route at or after `from` that answers the request,
/// or the number of routes if none does.
pub open spec fn first_route(routes: Seq<RouteView>, method: Seq<u8>, path: Seq<u8>, from: int) -> int
    decreases routes.len() - from,
{
    if from < 0 || from >= routes.len() {
        routes.len() as int
    } else if route_matches(routes[from], method, path) {
        from
    } else {
        first_route(routes, method, path, from + 1)
    }
}

/// The route that answers the request, if there is one.
pub open spec fn lookup_spec(routes: Seq<RouteView>, method: Seq<u8>, path: Seq<u8>) -> Option<
    RouteView,
> {
    let found: int = first_route(routes, method, path, 0);
    if found < routes.len() {
        Some(routes[found])
    } else {
        None
    }
}

/// `first_route` lies between its starting point and the number of routes,
/// the route there answers the request unless it is the end, and none before
/// it does.
pub proof fn lemma_first_route(routes: Seq<RouteView>, method: Seq<u8>, path: Seq<u8>, from: int)
    requires
        0 <= from <= routes.len(),
    ensures
        from <= first_route(routes, method, path, from) <= routes.len(),
        first_route(routes, method, path, from) < routes.len() ==> route_matches(
            routes[first_route(routes, method, path, from)],
            method,
            path,
        ),
        forall|i: int|
            from <= i < first_route(routes, method, path, from) ==> !route_matches(
                #[trigger] routes[i],
                method,
                path,
            ),
    decreases routes.len() - from,
{
    if from < routes.len() && !route_matches(routes[from], method, path) {
        lemma_first_route(routes, method, path, from + 1);
    }
}

/// The routes of the site, in the order in which they are tried.
pub open spec fn standard_routes() -> Seq<RouteView> {
    seq![
        RouteView {
            method: "GET".spec_bytes(),
            path: "/favicon.ico".spec_bytes(),
            handler: Handler::Favicon,
        },
        RouteView {
            method: "GET".spec_bytes(),
            path: "/styles.css".spec_bytes(),
            handler: Handler::Styles,
        },
        RouteView { method: "GET".spec_bytes(), path: "/".spec_bytes(), handler: Handler::Index },
        RouteView {
            method: "GET".spec_bytes(),
            path: "/index".spec_bytes(),
            handler: Handler::Index,
        },
        RouteView {
            method: "GET".spec_bytes(),
            path: "/about".spec_bytes(),
            handler: Handler::About,
        },
        RouteView {
            method: "GET".spec_bytes(),
            path: "/assets".spec_bytes(),
            handler: Handler::Assets,
        },
    ]
}

/// The requests that the routes of the site answer: a GET for one of the
/// five paths that the routes name, or for the assets directory or a path
/// below it.
pub open spec fn is_routed(method: Seq<u8>, path: Seq<u8>) -> bool {
    &&& method == "GET".spec_bytes()
    &&& (path == "/".spec_bytes() || path == "/index".spec_bytes() || path == "/about".spec_bytes()
        || path == "/favicon.ico".spec_bytes() || path == "/styles.css".spec_bytes() || path
        == "/assets".spec_bytes() || is_below(path, "/assets".spec_bytes()))
}

/// The handler that answers a request for `path`, where the routes of the
/// site answer it.
pub open spec fn handler_for(path: Seq<u8>) -> Handler {
    if path == "/".spec_bytes() || path == "/index".spec_bytes() {
        Handler::Index
    } else if path == "/about".spec_bytes() {
        Handler::About
    } else if path == "/favicon.ico".spec_bytes() {
        Handler::Favicon
    } else if path == "/styles.css".spec_bytes() {
        Handler::Styles
    } else {
        Handler::Assets
    }
}

/// The route table. Its view is the sequence of its routes.
#[derive(Debug)]
pub struct RouteTable {
    routes: Vec<Route>,
}

impl View for RouteTable {
    type V = Seq<RouteView>;

    closed spec fn view(&self) -> Seq<RouteView> {
        self.routes@.map_values(|route: Route| route@)
    }
}

/// Whether `path` lies below `mount`.
fn below(path: &[u8], mount: &[u8]) -> (yes: bool)
    ensures
        yes == is_below(path@, mount@),
{
    let ghost prefix = mount@ + seq![SLASH];
    if path.len() <= mount.len() {
        return false;
    }
    let yes = has_prefix(path, mount) && path[mount.len()] == SLASH;
    proof {
        let head = path@.subrange(0, prefix.len() as int);
        assert(head.subrange(0, mount@.len() as int) =~= path@.subrange(0, mount@.len() as int));
        assert(prefix.subrange(0, mount@.len() as int) =~= mount@);
        assert(head[mount@.len() as int] == path@[mount@.len() as int]);
        assert(prefix[mount@.len() as int] == SLASH);
        if yes {
            assert(head =~= prefix);
        }
    }
    yes
}

impl Route {
    /// Whether the route answers a request with the given method and path.
    pub fn matches(&self, method: &str, path: &str) -> (yes: bool)
        ensures
            yes == route_matches(self@, method.spec_bytes(), path.spec_bytes()),
    {
        if !bytes_eq(self.method.as_bytes(), method.as_bytes()) {
            return false;
        }
        if bytes_eq(path.as_bytes(), self.path.as_bytes()) {
            return true;
        }
        match self.handler {
            Handler::Assets => below(path.as_bytes(), self.path.as_bytes()),
            _ => false,
        }
    }
}

impl RouteTable {
    /// The route table of the site.
    pub fn standard() -> (table: RouteTable)
        ensures
            table@ == standard_routes(),
    {
        let mut routes: Vec<Route> = Vec::new();
        routes.push(Route { method: "GET", path: "/favicon.ico", handler: Handler::Favicon });
        routes.push(Route { method: "GET", path: "/styles.css", handler: Handler::Styles });
        routes.push(Route { method: "GET", path: "/", handler: Handler::Index });
        routes.push(Route { method: "GET", path: "/index", handler: Handler::Index });
        routes.push(Route { method: "GET", path: "/about", handler: Handler::About });
        routes.push(Route { method: "GET", path: "/assets", handler: Handler::Assets });
        let table = RouteTable { routes };
        assert(table@ =~= standard_routes());
        table
    }

    /// The first route that answers a request with the given method and
    /// path, if there is one.
    pub fn lookup(&self, method: &str, path: &str) -> (found: Option<&Route>)
        ensures
            match found {
                Some(route) => lookup_spec(self@, method.spec_bytes(), path.spec_bytes()) == Some(
                    route@,
                ),
                None => lookup_spec(self@, method.spec_bytes(), path.spec_bytes()) is None,
            },
    {
        let mut i: usize = 0;
        while i < self.routes.len()
            invariant
                i <= self.routes@.len(),
                self@.len() == self.routes@.len(),
                first_route(self@, method.spec_bytes(), path.spec_bytes(), 0) == first_route(
                    self@,
                    method.spec_bytes(),
                    path.spec_bytes(),
                    i as int,
                ),
            decreases self.routes@.len() - i,
        {
            assert(self@[i as int] == self.routes@[i as int]@);
            if self.routes[i].matches(method, path) {
                return Some(&self.routes[i]);
            }
            i += 1;
        }
        None
    }
}

} // verus!
