//! Routing: which part of a request path belongs to the plugin that
//! serves it.

use crate::text::{opt_text, text_eq};
use vstd::prelude::*;
use vstd::string::{StrSliceExecFns, StringExecFns};

verus! {

/// What is left of `path` behind the route of the plugin that serves it:
/// `/` where the path is the route itself, the rest from the `/` on where
/// the path goes on below the route, and nothing where the path does not
/// lie under the route.
pub open spec fn below_route(route: Seq<char>, path: Seq<char>) -> Option<Seq<char>> {
    if path == route {
        Some("/"@)
    } else if path.len() > route.len() && path.take(route.len() as int) == route
        && path[route.len() as int] == '/' {
        Some(path.skip(route.len() as int))
    } else {
        None
    }
}

/// The path to hand to the plugin that serves `route`, for a request to
/// `path`.
pub fn strip_route(route: &str, path: &str) -> (inner: Option<String>)
    ensures
        opt_text(inner) == below_route(route@, path@),
{
    if text_eq(path, route) {
        return Some(String::from_str("/"));
    }
    let n = route.unicode_len();
    let m = path.unicode_len();
    if m <= n {
        return None;
    }
    let head = path.substring_char(0, n);
    assert(head@ =~= path@.take(n as int));
    if !text_eq(head, route) {
        return None;
    }
    if path.get_char(n) != '/' {
        return None;
    }
    let tail = path.substring_char(n, m);
    assert(tail@ =~= path@.skip(n as int));
    Some(String::from_str(tail))
}

/// Where a request goes: the plugin, and the path within the plugin.
#[derive(Debug, PartialEq, Eq)]
pub struct RouteTarget {
    pub plugin_id: String,
    pub path: String,
}

} // verus!
