//! The route table: an ordered list of routes that only grows, until a one-way
//! freeze makes it read-only for good.
use vstd::prelude::*;
use vstd::string::StringSliceAdditionalSpecFns;
use vstd::utf8::{decode_utf8, decode_utf8_encode_utf8, encode_utf8, valid_utf8};

use crate::router::path_matches;

verus! {

/// The integer that correlates a route with the request logic behind it.
pub type HandlerId = u64;

/// Status of a registration that succeeded.
pub const STATUS_OK: i32 = 0;

/// Status of a registration whose router or pattern was missing.
pub const STATUS_NULL_ARGUMENT: i32 = 1;

/// Status of a registration refused because the router is frozen.
pub const STATUS_FROZEN: i32 = 2;

/// Status of a registration refused because the pattern is not UTF-8.
pub const STATUS_INVALID_UTF8: i32 = 3;

/// Status, on a server handle, of a registration that succeeded.
pub const SERVER_STATUS_OK: i32 = 0;

/// Status, on a server handle, of a registration whose handle or pattern was
/// missing.
pub const SERVER_STATUS_NULL_ARGUMENT: i32 = -1;

/// Status, on a server handle, of a registration refused because the pattern
/// is not UTF-8.
pub const SERVER_STATUS_INVALID_UTF8: i32 = -2;

/// Status, on a server handle, of a registration refused because the route
/// table is frozen.
pub const SERVER_STATUS_FROZEN: i32 = -3;

/// One entry of the route table.
pub struct Route {
    pub method: u8,
    pub pattern: String,
    pub handler_id: HandlerId,
}

/// A route as a mathematical value: the pattern as its UTF-8 bytes.
pub struct RouteSpec {
    pub method: u8,
    pub pattern: Seq<u8>,
    pub handler_id: HandlerId,
}

impl View for Route {
    type V = RouteSpec;

    open spec fn view(&self) -> RouteSpec {
        RouteSpec { method: self.method, pattern: encode_utf8(self.pattern@), handler_id: self.handler_id }
    }
}

/// Whether `route` serves a request for `method` on `path`.
pub open spec fn route_hits(route: RouteSpec, method: u8, path: Seq<u8>) -> bool {
    route.method == method && path_matches(route.pattern, path)
}

/// The handler of the first route, in insertion order, that serves a request
/// for `method` on `path`.
pub open spec fn first_match(routes: Seq<RouteSpec>, method: u8, path: Seq<u8>) -> Option<HandlerId>
    decreases routes.len(),
{
    if routes.len() == 0 {
        None
    } else if route_hits(routes[0], method, path) {
        Some(routes[0].handler_id)
    } else {
        first_match(routes.drop_first(), method, path)
    }
}

/// Why a registration was refused.
#[derive(Clone, Copy, Debug, PartialEq, Eq, Structural)]
pub enum RegisterError {
    /// The router was frozen before the call.
    Frozen,
    /// The pattern's bytes are not valid UTF-8.
    InvalidUtf8,
}

impl RegisterError {
    /// The status code that reports this error across the administrative boundary.
    pub fn code(&self) -> (r: i32)
        ensures
            r == match self {
                RegisterError::Frozen => STATUS_FROZEN,
                RegisterError::InvalidUtf8 => STATUS_INVALID_UTF8,
            },
    {
        match self {
            RegisterError::Frozen => STATUS_FROZEN,
            RegisterError::InvalidUtf8 => STATUS_INVALID_UTF8,
        }
    }

    /// The status code that reports this error on a server handle's
    /// registration, where errors are negative.
    pub fn server_code(&self) -> (r: i32)
        ensures
            r == match self {
                RegisterError::Frozen => SERVER_STATUS_FROZEN,
                RegisterError::InvalidUtf8 => SERVER_STATUS_INVALID_UTF8,
            },
    {
        match self {
            RegisterError::Frozen => SERVER_STATUS_FROZEN,
            RegisterError::InvalidUtf8 => SERVER_STATUS_INVALID_UTF8,
        }
    }
}

/// The state of a router as a mathematical value.
pub struct RouterView {
    pub routes: Seq<RouteSpec>,
    pub frozen: bool,
}

/// What registering `(method, pattern, handler_id)` answers in state `v`.
pub open spec fn register_outcome(v: RouterView, pattern: Seq<u8>) -> Result<(), RegisterError> {
    if v.frozen {
        Err(RegisterError::Frozen)
    } else if !valid_utf8(pattern) {
        Err(RegisterError::InvalidUtf8)
    } else {
        Ok(())
    }
}

/// The state after registering `(method, pattern, handler_id)` in state `v`.
pub open spec fn after_register(v: RouterView, method: u8, pattern: Seq<u8>, handler_id: HandlerId) -> RouterView {
    if register_outcome(v, pattern) is Ok {
        RouterView {
            routes: v.routes.push(RouteSpec { method, pattern, handler_id }),
            frozen: v.frozen,
        }
    } else {
        v
    }
}

/// The state after a freeze in state `v`.
pub open spec fn after_freeze(v: RouterView) -> RouterView {
    RouterView { routes: v.routes, frozen: true }
}

/// A frozen router refuses every registration and stays as it is, and a
/// second freeze reports that it found the router frozen already.
pub proof fn lemma_frozen_router_refuses(v: RouterView, method: u8, pattern: Seq<u8>, handler_id: HandlerId)
    requires
        v.frozen,
    ensures
        register_outcome(v, pattern) == Err::<(), RegisterError>(RegisterError::Frozen),
        after_register(v, method, pattern, handler_id) == v,
        after_freeze(v) == v,
{
}

/// Relies on std::str::from_utf8: it succeeds exactly on valid UTF-8, and the
/// text it gives is what those bytes decode to.
#[verifier::external_body]
fn text_from_utf8(b: &[u8]) -> (r: Option<String>)
    ensures
        r is Some <==> valid_utf8(b@),
        r matches Some(s) ==> s@ == decode_utf8(b@),
{
    match std::str::from_utf8(b) {
        Ok(s) => Some(String::from(s)),
        Err(_) => None,
    }
}

/// An ordered route table that accepts new routes until it is frozen.
pub struct RouterHandle {
    routes: Vec<Route>,
    frozen: bool,
}

impl View for RouterHandle {
    type V = RouterView;

    closed spec fn view(&self) -> RouterView {
        RouterView { routes: self.routes@.map_values(|r: Route| r@), frozen: self.frozen }
    }
}

impl RouterHandle {
    /// An empty, open router.
    pub fn new() -> (r: RouterHandle)
        ensures
            r@.routes.len() == 0,
            !r@.frozen,
    {
        RouterHandle { routes: Vec::new(), frozen: false }
    }

    /// Freezes the router; true if this call froze it, false if it was frozen
    /// already.
    pub fn freeze(&mut self) -> (r: bool)
        ensures
            r == !old(self)@.frozen,
            final(self)@ == after_freeze(old(self)@),
    {
        let was = self.frozen;
        self.frozen = true;
        !was
    }

    /// Whether the router is frozen.
    pub fn is_frozen(&self) -> (r: bool)
        ensures
            r == self@.frozen,
    {
        self.frozen
    }

    /// Appends the route `(method, pattern, handler_id)`; refused when the
    /// router is frozen, and otherwise when `pattern` is not valid UTF-8.
    pub fn register(&mut self, method: u8, pattern: &[u8], handler_id: HandlerId) -> (r: Result<(), RegisterError>)
        ensures
            r == register_outcome(old(self)@, pattern@),
            final(self)@ == after_register(old(self)@, method, pattern@, handler_id),
    {
        if self.frozen {
            return Err(RegisterError::Frozen);
        }
        match text_from_utf8(pattern) {
            None => Err(RegisterError::InvalidUtf8),
            Some(text) => {
                proof {
                    decode_utf8_encode_utf8(pattern@);
                }
                let route = Route { method, pattern: text, handler_id };
                let ghost before = self.routes@;
                self.routes.push(route);
                assert(self.routes@.map_values(|r: Route| r@) =~= before.map_values(|r: Route| r@).push(
                    RouteSpec { method, pattern: pattern@, handler_id },
                ));
                Ok(())
            }
        }
    }

    /// The handler of the first route, in insertion order, whose method is
    /// `method` and whose pattern matches `path`.
    pub fn lookup(&self, method: u8, path: &str) -> (r: Option<HandlerId>)
        ensures
            r == first_match(self@.routes, method, path.spec_bytes()),
    {
        let ghost all = self@.routes;
        let mut i: usize = 0;
        assert(all.subrange(0, all.len() as int) =~= all);
        while i < self.routes.len()
            invariant
                i <= self.routes@.len() == all.len(),
                all == self@.routes,
                first_match(all, method, path.spec_bytes()) == first_match(
                    all.subrange(i as int, all.len() as int),
                    method,
                    path.spec_bytes(),
                ),
            decreases self.routes@.len() - i,
        {
            let route = &self.routes[i];
            let ghost rest = all.subrange(i as int, all.len() as int);
            assert(rest[0] == route@);
            assert(rest.drop_first() =~= all.subrange(i + 1, all.len() as int));
            if route.method == method && crate::router::matches(route.pattern.as_str(), path) {
                return Some(route.handler_id);
            }
            i = i + 1;
        }
        None
    }
}

} // verus!
