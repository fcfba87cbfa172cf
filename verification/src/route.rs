//! The routes of the service: which method and path lead to which handler.

use vstd::prelude::*;

verus! {

/// The method of a request.
#[derive(Clone, Copy, Debug, PartialEq, Eq, Structural)]
pub enum Method {
    Get,
    Head,
    Post,
    Put,
    Delete,
    Connect,
    Options,
    Trace,
    Patch,
}

/// What answers a request. Each handler stands for one path pattern.
#[derive(Clone, Copy, Debug, PartialEq, Eq, Structural)]
pub enum Handler {
    /// Greets the world; answers the root path.
    Index,
    /// Greets the name that the path gives in its second segment.
    Hello,
}

/// A method and a path pattern, bound to the handler that answers them.
#[derive(Clone, Copy, Debug, PartialEq, Eq, Structural)]
pub struct Route {
    pub method: Method,
    pub handler: Handler,
}

/// The segments of a path, each as a sequence of characters.
pub open spec fn path_view(path: Seq<String>) -> Seq<Seq<char>> {
    Seq::new(path.len(), |i: int| path[i]@)
}

/// The routes that a service has from its start to its end, in the order in
/// which they are tried.
pub open spec fn route_table() -> Seq<Route> {
    seq![
        Route { method: Method::Get, handler: Handler::Index },
        Route { method: Method::Get, handler: Handler::Hello },
    ]
}

/// The handler that a request with this method and these path segments is
/// routed to, if any: the root path goes to `Index`, a path of two segments
/// of which the first is `hello` goes to `Hello`, whatever the second is, and
/// only `GET` is routed at all.
pub open spec fn route_of(method: Method, path: Seq<Seq<char>>) -> Option<Handler> {
    if method != Method::Get {
        None
    } else if path.len() == 0 {
        Some(Handler::Index)
    } else if path.len() == 2 && path[0] == "hello"@ {
        Some(Handler::Hello)
    } else {
        None
    }
}

impl Handler {
    /// The handler's path pattern as text, a parameter written in angle
    /// brackets.
    pub open spec fn pattern_text(self) -> Seq<char> {
        match self {
            Handler::Index => "/"@,
            Handler::Hello => "/hello/<name>"@,
        }
    }

    /// Whether a path fits the handler's pattern. A parameter fits any
    /// segment.
    pub open spec fn accepts(self, path: Seq<Seq<char>>) -> bool {
        match self {
            Handler::Index => path.len() == 0,
            Handler::Hello => path.len() == 2 && path[0] == "hello"@,
        }
    }

    /// The handler's path pattern as text.
    pub fn pattern(self) -> (text: &'static str)
        ensures
            text@ == self.pattern_text(),
    {
        match self {
            Handler::Index => "/",
            Handler::Hello => "/hello/<name>",
        }
    }

    /// Tells whether a path fits the handler's pattern.
    pub fn matches(self, path: &Vec<String>) -> (fits: bool)
        ensures
            fits == self.accepts(path_view(path@)),
    {
        match self {
            Handler::Index => path.len() == 0,
            Handler::Hello => {
                if path.len() == 2 {
                    let literal = "hello".to_owned();
                    path[0] == literal
                } else {
                    false
                }
            },
        }
    }
}

impl Route {
    /// Whether the route takes a request with this method and path.
    pub open spec fn accepts(self, method: Method, path: Seq<Seq<char>>) -> bool {
        self.method == method && self.handler.accepts(path)
    }

    /// Tells whether the route takes a request with this method and path.
    pub fn matches(self, method: Method, path: &Vec<String>) -> (fits: bool)
        ensures
            fits == self.accepts(method, path_view(path@)),
    {
        self.method == method && self.handler.matches(path)
    }
}

/// A request is routed to a handler exactly when the table holds a route with
/// that handler which takes the request; no two routes of the table take the
/// same request.
pub proof fn lemma_route_of_follows_table(method: Method, path: Seq<Seq<char>>, handler: Handler)
    ensures
        route_of(method, path) == Some(handler) <==> exists|i: int|
            0 <= i < route_table().len() && route_table()[i].handler == handler
                && #[trigger] route_table()[i].accepts(method, path),
        forall|i: int, j: int|
            0 <= i < j < route_table().len() ==> !(#[trigger] route_table()[i].accepts(method, path)
                && #[trigger] route_table()[j].accepts(method, path)),
{
    let table = route_table();
    assert(table.len() == 2);
    assert(table[0] == Route { method: Method::Get, handler: Handler::Index });
    assert(table[1] == Route { method: Method::Get, handler: Handler::Hello });
    if route_of(method, path) == Some(handler) {
        let i: int = if handler == Handler::Index { 0 } else { 1 };
        assert(table[i].handler == handler && table[i].accepts(method, path));
    }
}

} // verus!
