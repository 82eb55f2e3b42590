//! Routing of a request: the relay path first, then the user's routes, then
//! the not-found answer.

use vstd::prelude::*;
use vstd::string::StringSliceAdditionalSpecFns;

use crate::headers::{Fields, HeaderList};
use crate::octets::{bytes_eq, str_bytes};
use crate::protocol::Protocol;
use crate::response::{
    carries_defaults, lemma_core_response_carries_defaults, not_found_response, not_found_spec,
    HttpResponse, ResponseSpec, NOT_FOUND_BODY, STATUS_BAD_REQUEST, STATUS_NOT_FOUND,
};
use crate::upgrade::{
    accept_key_of, handoff_of, upgrade_decision, upgrade_reply, upgrade_response, websocket_key,
    UpgradeDecision, UPGRADE,
};
use crate::headers::first_value;

verus! {

/// The method of the relay endpoint.
pub const GET: &'static str = "GET";

/// The path of the relay endpoint.
pub const RELAY_PATH: &'static str = "/relay";

/// The path the relay endpoint had before, still served.
pub const LEGACY_RELAY_PATH: &'static str = "/derp";

/// `(method, path)` is the relay endpoint, which the server itself answers.
pub open spec fn is_relay_route(method: Seq<u8>, path: Seq<u8>) -> bool {
    &&& method == GET.spec_bytes()
    &&& (path == RELAY_PATH.spec_bytes() || path == LEGACY_RELAY_PATH.spec_bytes())
}

/// Whether `(method, path)` is the relay endpoint.
pub fn is_relay_endpoint(method: &[u8], path: &[u8]) -> (r: bool)
    ensures
        r == is_relay_route(method@, path@),
{
    bytes_eq(method, GET.as_bytes()) && (bytes_eq(path, RELAY_PATH.as_bytes()) || bytes_eq(
        path,
        LEGACY_RELAY_PATH.as_bytes(),
    ))
}

/// The route keys of a table, as `(method, path)` pairs.
pub type RouteKeys = Seq<(Seq<u8>, Seq<u8>)>;

/// Where a request goes.
#[derive(Debug, Copy, Clone, PartialEq, Eq, Structural)]
pub enum Route {
    /// The relay endpoint.
    Relay,
    /// The user route at this index.
    Handler(usize),
    /// Nothing matches.
    NotFound,
}

/// The route that `(method, path)` takes in a table with keys `keys`.
pub open spec fn route_of(keys: RouteKeys, method: Seq<u8>, path: Seq<u8>) -> Route {
    if is_relay_route(method, path) {
        Route::Relay
    } else if keys.contains((method, path)) {
        Route::Handler(keys.index_of((method, path)) as usize)
    } else {
        Route::NotFound
    }
}

/// The user's routes: a handler for each `(method, path)` key. No key occurs
/// twice, and the relay endpoint is never among them.
pub struct Handlers<H> {
    keys: Vec<(Vec<u8>, Vec<u8>)>,
    handlers: Vec<H>,
}

impl<H> Handlers<H> {
    /// The keys, in the order they were first added.
    pub closed spec fn keys(&self) -> RouteKeys {
        self.keys@.map_values(|k: (Vec<u8>, Vec<u8>)| (k.0@, k.1@))
    }

    /// The handlers; the one at an index serves the key at that index.
    pub closed spec fn handlers(&self) -> Seq<H> {
        self.handlers@
    }

    /// The keys are unique, none is the relay endpoint, and each has its handler.
    pub closed spec fn wf(&self) -> bool {
        &&& self.keys@.len() == self.handlers@.len()
        &&& self.keys().no_duplicates()
        &&& forall|i: int| 0 <= i < self.keys().len() ==> !is_relay_route(
            #[trigger] self.keys()[i].0,
            self.keys()[i].1,
        )
    }

    /// The table holds `key`, and `handler` serves it.
    pub open spec fn serves(&self, key: (Seq<u8>, Seq<u8>), handler: H) -> bool {
        &&& self.keys().contains(key)
        &&& self.handlers()[self.keys().index_of(key)] == handler
    }

    /// An empty table.
    pub fn new() -> (r: Self)
        ensures
            r.wf(),
            r.keys() == Seq::<(Seq<u8>, Seq<u8>)>::empty(),
    {
        let r = Handlers { keys: Vec::new(), handlers: Vec::new() };
        assert(r.keys() =~= Seq::<(Seq<u8>, Seq<u8>)>::empty());
        r
    }

    /// The number of routes.
    pub fn len(&self) -> (r: usize)
        ensures
            r == self.keys().len(),
    {
        self.keys.len()
    }

    /// The index of the key `(method, path)`, if the table holds it.
    pub fn find(&self, method: &[u8], path: &[u8]) -> (r: Option<usize>)
        requires
            self.wf(),
        ensures
            match r {
                Some(i) => self.keys().contains((method@, path@)) && i as int == self.keys().index_of(
                    (method@, path@),
                ) && i < self.keys().len(),
                None => !self.keys().contains((method@, path@)),
            },
    {
        let mut i: usize = 0;
        while i < self.keys.len()
            invariant
                0 <= i <= self.keys@.len(),
                self.wf(),
                forall|j: int| 0 <= j < i ==> self.keys()[j] != (method@, path@),
            decreases self.keys@.len() - i,
        {
            let k = &self.keys[i];
            if bytes_eq(k.0.as_slice(), method) && bytes_eq(k.1.as_slice(), path) {
                assert(self.keys()[i as int] == (method@, path@));
                proof {
                    let ks = self.keys();
                    assert(ks.contains((method@, path@)));
                    let j = ks.index_of((method@, path@));
                    assert(ks[j] == (method@, path@));
                    assert(j == i as int);
                }
                return Some(i);
            }
            i = i + 1;
        }
        None
    }

    /// The handler at index `i`.
    pub fn handler(&self, i: usize) -> (r: &H)
        requires
            self.wf(),
            i < self.keys().len(),
        ensures
            *r == self.handlers()[i as int],
    {
        &self.handlers[i]
    }

    /// Adds a handler for `(method, path)`, replacing the one that key had.
    /// The relay endpoint is the server's own: a handler for it is dropped,
    /// since no request could ever reach it.
    pub fn insert(&mut self, method: Vec<u8>, path: Vec<u8>, handler: H)
        requires
            old(self).wf(),
        ensures
            final(self).wf(),
            is_relay_route(method@, path@) ==> *final(self) == *old(self),
            !is_relay_route(method@, path@) ==> final(self).serves((method@, path@), handler),
            !is_relay_route(method@, path@) && old(self).keys().contains((method@, path@)) ==> {
                &&& final(self).keys() == old(self).keys()
                &&& final(self).handlers() == old(self).handlers().update(
                    old(self).keys().index_of((method@, path@)),
                    handler,
                )
            },
            !is_relay_route(method@, path@) && !old(self).keys().contains((method@, path@)) ==> {
                &&& final(self).keys() == old(self).keys().push((method@, path@))
                &&& final(self).handlers() == old(self).handlers().push(handler)
            },
    {
        if is_relay_endpoint(method.as_slice(), path.as_slice()) {
            return;
        }
        match self.find(method.as_slice(), path.as_slice()) {
            Some(i) => {
                self.handlers.set(i, handler);
                assert(self.keys() =~= old(self).keys());
            },
            None => {
                let ghost before = self.keys();
                self.keys.push((method, path));
                self.handlers.push(handler);
                assert(self.keys() =~= before.push((method@, path@)));
                assert forall|a: int, b: int|
                    0 <= a < b < self.keys().len() implies self.keys()[a] != self.keys()[b] by {
                    if b == before.len() {
                        assert(before[a] == self.keys()[a]);
                    }
                }
                let ghost key = (method@, path@);
                assert(self.keys()[before.len() as int] == key);
                assert(self.keys().index_of(key) == before.len() as int) by {
                    let j = self.keys().index_of(key);
                    assert(self.keys().contains(key));
                    assert(self.keys()[j] == key);
                    if j < before.len() {
                        assert(before[j] == key);
                        assert(before.contains(key));
                    }
                }
                assert forall|j: int| 0 <= j < self.keys().len() implies !is_relay_route(
                    #[trigger] self.keys()[j].0,
                    self.keys()[j].1,
                ) by {
                    if j < before.len() {
                        assert(before[j] == self.keys()[j]);
                    }
                }
            },
        }
    }
}

/// Who answers on the relay endpoint.
pub enum RelayHandler<C, H> {
    /// The relay backend, reached through this handle: the connection is upgraded and handed to it.
    ConnHandler(C),
    /// This handler answers with an ordinary response; relaying is off.
    Override(H),
}

/// A request as the router sees it: method, path and header fields.
pub struct RequestHead {
    pub method: Vec<u8>,
    pub path: Vec<u8>,
    pub headers: HeaderList,
}

/// What a request is.
pub struct RequestSpec {
    pub method: Seq<u8>,
    pub path: Seq<u8>,
    pub headers: Fields,
}

impl View for RequestHead {
    type V = RequestSpec;

    open spec fn view(&self) -> RequestSpec {
        RequestSpec { method: self.method@, path: self.path@, headers: self.headers@ }
    }
}

/// What the server does with a request.
pub enum Dispatch {
    /// The server answers itself; with `Some(p)` the connection then goes to
    /// the relay backend under protocol `p`.
    Reply(HttpResponse, Option<Protocol>),
    /// The relay override answers.
    RelayOverride,
    /// The user handler at this index answers.
    Handler(usize),
    /// The user's not-found handler answers.
    NotFoundHandler,
}

/// What a dispatch is.
pub enum DispatchSpec {
    Reply(ResponseSpec, Option<Protocol>),
    RelayOverride,
    Handler(usize),
    NotFoundHandler,
}

impl View for Dispatch {
    type V = DispatchSpec;

    open spec fn view(&self) -> DispatchSpec {
        match self {
            Dispatch::Reply(r, p) => DispatchSpec::Reply(r@, *p),
            Dispatch::RelayOverride => DispatchSpec::RelayOverride,
            Dispatch::Handler(i) => DispatchSpec::Handler(*i),
            Dispatch::NotFoundHandler => DispatchSpec::NotFoundHandler,
        }
    }
}

/// The service behind every connection: read-only once built, shared by all of them.
pub struct RelayService<C, H> {
    pub relay_handler: RelayHandler<C, H>,
    pub not_found_fn: Option<H>,
    pub handlers: Handlers<H>,
    pub headers: HeaderList,
}

impl<C, H> RelayService<C, H> {
    /// The handler table is well formed.
    pub open spec fn wf(&self) -> bool {
        self.handlers.wf()
    }

    /// What the service does with the request `req`.
    pub open spec fn dispatch_spec(&self, req: RequestSpec) -> DispatchSpec {
        match route_of(self.handlers.keys(), req.method, req.path) {
            Route::Relay => match self.relay_handler {
                RelayHandler::Override(_) => DispatchSpec::RelayOverride,
                RelayHandler::ConnHandler(_) => DispatchSpec::Reply(
                    upgrade_response(req.headers, self.headers@, accept_key_of(websocket_key(req.headers))),
                    handoff_of(upgrade_decision(req.headers)),
                ),
            },
            Route::Handler(i) => DispatchSpec::Handler(i),
            Route::NotFound => if self.not_found_fn.is_some() {
                DispatchSpec::NotFoundHandler
            } else {
                DispatchSpec::Reply(not_found_spec(self.headers@), None)
            },
        }
    }

    /// Assembles the service.
    pub fn new(
        handlers: Handlers<H>,
        relay_handler: RelayHandler<C, H>,
        not_found_fn: Option<H>,
        headers: HeaderList,
    ) -> (r: Self)
        ensures
            r.handlers == handlers,
            r.relay_handler == relay_handler,
            r.not_found_fn == not_found_fn,
            r.headers == headers,
    {
        RelayService { relay_handler, not_found_fn, handlers, headers }
    }

    /// The route that a request takes.
    pub fn route(&self, method: &[u8], path: &[u8]) -> (r: Route)
        requires
            self.wf(),
        ensures
            r == route_of(self.handlers.keys(), method@, path@),
    {
        if is_relay_endpoint(method, path) {
            Route::Relay
        } else {
            match self.handlers.find(method, path) {
                Some(i) => Route::Handler(i),
                None => Route::NotFound,
            }
        }
    }

    /// Decides what the request `req` gets: the relay endpoint is checked first,
    /// then the user's routes; anything else is not found.
    pub fn dispatch(&self, req: &RequestHead) -> (r: Dispatch)
        requires
            self.wf(),
        ensures
            r@ == self.dispatch_spec(req@),
    {
        match self.route(req.method.as_slice(), req.path.as_slice()) {
            Route::Relay => match &self.relay_handler {
                RelayHandler::Override(_) => Dispatch::RelayOverride,
                RelayHandler::ConnHandler(_) => {
                    let reply = upgrade_reply(&req.headers, &self.headers);
                    Dispatch::Reply(reply.response, reply.handoff)
                },
            },
            Route::Handler(i) => Dispatch::Handler(i),
            Route::NotFound => if self.not_found_fn.is_some() {
                Dispatch::NotFoundHandler
            } else {
                Dispatch::Reply(not_found_response(&self.headers), None)
            },
        }
    }

    /// The response a handler starts from: status 200 and the default headers.
    pub fn default_response(&self) -> (r: HttpResponse)
        ensures
            r@ == crate::response::core_response(
                crate::response::STATUS_OK,
                self.headers@,
                Seq::empty(),
                Seq::empty(),
            ),
    {
        crate::response::default_response(&self.headers)
    }
}

/// A request on the relay path with a method other than `GET` gets the
/// not-found answer: `404` where no not-found handler was set.
pub proof fn lemma_dispatch_relay_path_other_method<C, H>(svc: &RelayService<C, H>, req: RequestSpec)
    requires
        req.path == RELAY_PATH.spec_bytes() || req.path == LEGACY_RELAY_PATH.spec_bytes(),
        req.method != GET.spec_bytes(),
        !svc.handlers.keys().contains((req.method, req.path)),
    ensures
        svc.not_found_fn.is_some() ==> svc.dispatch_spec(req) == DispatchSpec::NotFoundHandler,
        svc.not_found_fn.is_none() ==> (svc.dispatch_spec(req) matches DispatchSpec::Reply(r, None)
            && r.status == STATUS_NOT_FOUND),
{
}

/// A request for the relay endpoint without an `Upgrade` header, served by the
/// relay backend, gets a `400` and is not handed off.
pub proof fn lemma_dispatch_missing_upgrade<C, H>(svc: &RelayService<C, H>, req: RequestSpec)
    requires
        is_relay_route(req.method, req.path),
        svc.relay_handler is ConnHandler,
        first_value(req.headers, UPGRADE.spec_bytes()).is_none(),
    ensures
        svc.dispatch_spec(req) matches DispatchSpec::Reply(r, None) && r.status == STATUS_BAD_REQUEST
            && r.body.len() == 0,
{
}

/// Every response the server originates itself carries the default headers,
/// ahead of any field of its own.
pub proof fn lemma_core_replies_carry_defaults<C, H>(svc: &RelayService<C, H>, req: RequestSpec)
    ensures
        svc.dispatch_spec(req) matches DispatchSpec::Reply(r, _) ==> carries_defaults(r, svc.headers@),
{
    let h = req.headers;
    crate::upgrade::lemma_upgrade_response_carries_defaults(h, svc.headers@, accept_key_of(websocket_key(h)));
    lemma_core_response_carries_defaults(STATUS_NOT_FOUND, svc.headers@, Seq::empty(), NOT_FOUND_BODY.spec_bytes());
}

} // verus!
