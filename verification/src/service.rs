//! The service itself: from a request to its answer.

use crate::greeting::{hello, hello_text, host_view, index, index_text};
use crate::greeting::lemma_hello_text_holds_name;
use crate::host::{resolve_host, ServeError};
use crate::route::{lemma_route_of_follows_table, path_view, route_of, route_table};
use crate::route::{Handler, Method, Route};
use vstd::prelude::*;

verus! {

/// What the service is told of a request. The path comes as the HTTP layer
/// has cut and decoded it: one entry for each segment between slashes, the
/// root path having none. The query string and the header fields are carried
/// along; no route looks at them.
#[derive(Clone, Debug, PartialEq, Eq)]
pub struct Request {
    pub method: Method,
    pub path: Vec<String>,
    pub query: Option<String>,
    pub headers: Vec<(String, String)>,
}

/// The answer to a request that a route has taken.
#[derive(Clone, Debug, PartialEq, Eq)]
pub struct Response {
    pub status: u16,
    pub content_type: String,
    pub body: String,
}

/// A response as plain values.
pub struct ResponseView {
    pub status: u16,
    pub content_type: Seq<char>,
    pub body: Seq<char>,
}

impl View for Response {
    type V = ResponseView;

    open spec fn view(&self) -> ResponseView {
        ResponseView { status: self.status, content_type: self.content_type@, body: self.body@ }
    }
}

/// The answer of a request as plain values: a response, or nothing where no
/// route took the request.
pub open spec fn answer_view(out: Option<Response>) -> Option<ResponseView> {
    match out {
        Some(response) => Some(response@),
        None => None,
    }
}

/// The successful answer that carries `body`: status 200, plain text.
pub open spec fn ok_text(body: Seq<char>) -> ResponseView {
    ResponseView { status: 200, content_type: "text/plain"@, body }
}

/// The answer to a request with this method and these path segments, the
/// greetings carrying `host` where there is one. A request that no route takes
/// has no answer here: the HTTP runtime gives its own.
pub open spec fn answer(method: Method, path: Seq<Seq<char>>, host: Option<Seq<char>>) -> Option<
    ResponseView,
> {
    match route_of(method, path) {
        Some(Handler::Index) => Some(ok_text(index_text(host))),
        Some(Handler::Hello) => Some(ok_text(hello_text(path[1], host))),
        None => None,
    }
}

impl Request {
    /// The segments of the request's path, each as a sequence of characters.
    pub open spec fn path_view(self) -> Seq<Seq<char>> {
        path_view(self.path@)
    }

    /// The answer to this request. Of the request, only the method and the
    /// path count.
    pub open spec fn answer(self, host: Option<Seq<char>>) -> Option<ResponseView> {
        answer(self.method, self.path_view(), host)
    }
}

impl Response {
    /// The successful answer that carries `body`.
    pub fn ok(body: String) -> (response: Response)
        ensures
            response@ == ok_text(body@),
    {
        Response { status: 200, content_type: "text/plain".to_owned(), body }
    }
}

/// A greeting service: its routes, which are the same from its start to its
/// end, and whether its greetings carry the machine's host name.
#[derive(Debug)]
pub struct Service {
    routes: Vec<Route>,
    include_hostname: bool,
}

impl Service {
    #[verifier::type_invariant]
    spec fn routes_are_fixed(self) -> bool {
        self.routes@ == route_table()
    }

    /// The routes of the service, in the order in which they are tried.
    pub closed spec fn table(self) -> Seq<Route> {
        self.routes@
    }

    /// Whether the greetings of this service carry the machine's host name.
    pub closed spec fn includes_hostname(self) -> bool {
        self.include_hostname
    }

    /// Tells whether the greetings of this service carry the machine's host
    /// name.
    pub fn include_hostname(&self) -> (flag: bool)
        ensures
            flag == self.includes_hostname(),
    {
        self.include_hostname
    }

    /// The routes of the service, in the order in which they are tried. They
    /// are the same for every service and at every moment.
    pub fn routes(&self) -> (table: &Vec<Route>)
        ensures
            table@ == self.table(),
            table@ == route_table(),
    {
        proof {
            use_type_invariant(self);
        }
        &self.routes
    }

    /// Finds the handler for a request by trying the routes in turn.
    pub fn dispatch(&self, method: Method, path: &Vec<String>) -> (found: Option<Handler>)
        ensures
            found == route_of(method, path_view(path@)),
    {
        proof {
            use_type_invariant(self);
        }
        let ghost segments = path_view(path@);
        let mut i: usize = 0;
        while i < self.routes.len()
            invariant
                i <= self.routes.len(),
                self.routes@ == route_table(),
                segments == path_view(path@),
                forall|j: int| 0 <= j < i ==> !(#[trigger] self.routes@[j]).accepts(method, segments),
            decreases self.routes.len() - i,
        {
            let route = self.routes[i];
            if route.matches(method, path) {
                proof {
                    lemma_route_of_follows_table(method, segments, route.handler);
                }
                return Some(route.handler);
            }
            i += 1;
        }
        proof {
            if route_of(method, segments) is Some {
                lemma_route_of_follows_table(method, segments, route_of(method, segments)->0);
            }
        }
        None
    }

    /// Runs the handler that a request was routed to.
    fn run(handler: Handler, request: &Request, host: Option<&str>) -> (response: Response)
        requires
            route_of(request.method, request.path_view()) == Some(handler),
        ensures
            Some(response@) == request.answer(host_view(host)),
    {
        match handler {
            Handler::Index => Response::ok(index(host)),
            Handler::Hello => Response::ok(hello(request.path[1].as_str(), host)),
        }
    }

    /// Answers a request, the greetings carrying `host` where one is given.
    /// `None` says that no route takes the request.
    pub fn respond(&self, request: &Request, host: Option<&str>) -> (out: Option<Response>)
        ensures
            answer_view(out) == request.answer(host_view(host)),
    {
        match self.dispatch(request.method, &request.path) {
            Some(handler) => Some(Service::run(handler, request, host)),
            None => None,
        }
    }

    /// Answers a request as the service is configured: where its greetings
    /// carry the host name, that name is looked up now, once a route has taken
    /// the request. Only that lookup can fail; a service without host name
    /// answers every request, and every service tells a request that no route
    /// takes.
    pub fn serve(&self, request: &Request) -> (r: Result<Option<Response>, ServeError>)
        ensures
            !self.includes_hostname() ==> (r matches Ok(out) && answer_view(out) == request.answer(
                None,
            )),
            request.answer(None) is None ==> (r matches Ok(out) && out is None),
            self.includes_hostname() ==> (r matches Ok(out) ==> exists|name: Seq<char>|
                answer_view(out) == #[trigger] request.answer(Some(name))),
            r matches Err(e) ==> e == ServeError::HostnameUnavailable,
    {
        match self.dispatch(request.method, &request.path) {
            Some(handler) => match resolve_host(self.include_hostname) {
                Ok(Some(name)) => {
                    let response = Service::run(handler, request, Some(name.as_str()));
                    assert(Some(response@) == request.answer(Some(name@)));
                    Ok(Some(response))
                },
                Ok(None) => Ok(Some(Service::run(handler, request, None))),
                Err(e) => Err(e),
            },
            None => Ok(None),
        }
    }
}

/// Builds the service: the two routes, and the choice whether the greetings
/// carry the machine's host name.
pub fn rocket(include_hostname: bool) -> (service: Service)
    ensures
        service.table() == route_table(),
        service.includes_hostname() == include_hostname,
{
    let mut routes: Vec<Route> = Vec::new();
    routes.push(Route { method: Method::Get, handler: Handler::Index });
    routes.push(Route { method: Method::Get, handler: Handler::Hello });
    assert(routes@ =~= route_table());
    Service { routes, include_hostname }
}

/// A `GET` request for the root path is always answered, with status 200 and
/// the greeting to the world, whatever its query string and its header fields.
pub proof fn lemma_root_is_always_answered(request: Request, host: Option<Seq<char>>)
    requires
        request.method == Method::Get,
        request.path@.len() == 0,
    ensures
        request.answer(host) == Some(ok_text(index_text(host))),
        request.answer(host)->0.status == 200,
{
}

/// A `GET` request for `hello` and a name is always answered, with status 200
/// and the greeting to that name, whatever the name is and whatever the
/// request's query string and header fields are. The body holds the name
/// unchanged, right after the seven characters of the salutation.
pub proof fn lemma_hello_is_always_answered(request: Request, host: Option<Seq<char>>)
    requires
        request.method == Method::Get,
        request.path@.len() == 2,
        request.path@[0]@ == "hello"@,
    ensures
        request.answer(host) == Some(ok_text(hello_text(request.path@[1]@, host))),
        request.answer(host)->0.status == 200,
        request.answer(host)->0.body.len() >= 7 + request.path@[1]@.len(),
        request.answer(host)->0.body.subrange(7, 7 + request.path@[1]@.len() as int)
            == request.path@[1]@,
{
    lemma_hello_text_holds_name(request.path@[1]@, host);
}

/// Every other request has no answer from the service, whatever the host
/// name: the HTTP runtime gives its own.
pub proof fn lemma_other_requests_are_not_answered(request: Request, host: Option<Seq<char>>)
    requires
        !(request.method == Method::Get && request.path@.len() == 0),
        !(request.method == Method::Get && request.path@.len() == 2 && request.path@[0]@
            == "hello"@),
    ensures
        request.answer(host) is None,
{
}

/// The answer is a function of the method, the path and the host name: two
/// requests that agree on method and path get the same answer from the same
/// host, however their query strings and header fields differ. So asking the
/// same thing twice gives the same answer twice.
pub proof fn lemma_same_request_same_answer(a: Request, b: Request, host: Option<Seq<char>>)
    requires
        a.method == b.method,
        a.path_view() == b.path_view(),
    ensures
        a.answer(host) == b.answer(host),
{
}

} // verus!
