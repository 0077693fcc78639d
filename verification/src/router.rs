//! The dispatch decision: which of the three handling strategies a parsed
//! request is routed to.
//!
//! Dispatch is driven by the method: a `Get` request is split between the
//! web-service handler and the static-page handler by its path, and every
//! other method — `Post` as well as the `Uninitialized` sentinel — goes to
//! the not-found handler. Performing the chosen handler and writing its
//! response through a sink belong to the caller; this module owns the
//! selection alone.

use vstd::prelude::*;
use crate::httprequest::{HttpMethod, HttpRequest, RequestModel, Resource};
use crate::text::{find_char_from, find_from, find_other_char_from, find_other_from, str_eq_str};

verus! {

/// The three handling strategies a request can be dispatched to.
#[derive(Debug, PartialEq, Eq, Structural, Clone, Copy)]
pub enum RouteTarget {
    /// The web-service handler, for `Get` requests whose first non-empty
    /// path segment is `api`.
    WebService,
    /// The static-page handler, for every other `Get` request.
    StaticPage,
    /// The not-found handler, for every request that is not a `Get`.
    PageNotFound,
}

/// Whether a path sends a `Get` request to the web-service handler: the path
/// splits on `/` into at least two segments, and its first non-empty segment
/// is `api`. A path without a `/` has no second segment and never selects
/// the service.
pub open spec fn spec_selects_service(p: Seq<char>) -> bool {
    find_from(p, 0, '/') < p.len() && {
        let a = find_other_from(p, 0, '/');
        a < p.len() && p.subrange(a, find_from(p, a, '/')) == "api"@
    }
}

/// The handler a request is dispatched to.
pub open spec fn spec_route(m: RequestModel) -> RouteTarget {
    match m.method {
        HttpMethod::Get => if spec_selects_service(m.path) {
            RouteTarget::WebService
        } else {
            RouteTarget::StaticPage
        },
        _ => RouteTarget::PageNotFound,
    }
}

/// The router: it owns the dispatch decision. Invoking the chosen handler
/// and writing its response through a sink stay with the caller.
pub struct Router;

impl Router {
    /// Decides which handler a request goes to: a `Get` whose first
    /// non-empty path segment is `api` goes to the web service, every other
    /// `Get` to the static-page handler, and every other method to the
    /// not-found handler.
    pub fn select_handler(req: &HttpRequest) -> (t: RouteTarget)
        ensures
            t == spec_route(req@),
    {
        match req.method {
            HttpMethod::Get => {
                let path: &str = match &req.resource {
                    Resource::Path(p) => p.as_str(),
                };
                let n = path.unicode_len();
                let slash = find_char_from(path, 0, '/');
                if slash == n {
                    return RouteTarget::StaticPage;
                }
                let a = find_other_char_from(path, 0, '/');
                if a == n {
                    return RouteTarget::StaticPage;
                }
                let e = find_char_from(path, a, '/');
                let segment = path.substring_char(a, e);
                if str_eq_str(segment, "api") {
                    RouteTarget::WebService
                } else {
                    RouteTarget::StaticPage
                }
            },
            _ => RouteTarget::PageNotFound,
        }
    }
}

} // verus!
