//! The names a REST handler's span records: its route and its display name.

use vstd::prelude::*;

use crate::problem::{opt_str, uri_path, uri_path_spec};
use crate::text::{cat3, owned};

verus! {

/// The route of a request: the route template that routing matched, when it
/// matched one, else the path of the request URI.
pub open spec fn handler_route_spec(matched_path: Option<Seq<char>>, path_and_query: Option<Seq<char>>) -> Seq<char> {
    match matched_path {
        Some(m) => m,
        None => uri_path_spec(path_and_query),
    }
}

/// The route a handler span records (see `handler_route_spec`), given the
/// matched route template, if any, and the path and query of the request URI.
pub fn handler_route(matched_path: Option<&str>, path_and_query: Option<&str>) -> (r: String)
    ensures
        r@ == handler_route_spec(opt_str(matched_path), opt_str(path_and_query)),
{
    match matched_path {
        Some(m) => owned(m),
        None => uri_path(path_and_query),
    }
}

/// The display name of a handler span: the method, a blank, the route.
pub fn handler_span_name(method: &str, route: &str) -> (r: String)
    ensures
        r@ == method@ + " "@ + route@,
{
    cat3(method, " ", route)
}

} // verus!
