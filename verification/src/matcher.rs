//! Route matching: normalizing a request path and selecting the single
//! stored route whose (method, path) pair equals the request's.
//!
//! Matching is exact and case-sensitive on the normalized path: no template
//! segments, no percent-decoding, no trailing-slash folding. The query
//! string, if any, is stripped before comparison, and an empty path is
//! treated as `/`.

use vstd::prelude::*;
use crate::models::{HttpMethod, Route};

verus! {

/// Whether a stored route answers a request with this method and
/// (normalized) path.
pub open spec fn route_matches(r: Route, method: HttpMethod, path: Seq<char>) -> bool {
    r.method == method && r.path@ == path
}

/// The route selected for a request: the first stored route whose
/// (method, path) pair equals the request's, or `None`. Because the store
/// keeps (method, path) unique within a collection, at most one route can
/// match; "first" is a correctness fallback, not a tie-break policy.
pub open spec fn matched_route(routes: Seq<Route>, method: HttpMethod, path: Seq<char>) -> Option<
    Route,
>
    decreases routes.len(),
{
    if routes.len() == 0 {
        None
    } else if route_matches(routes[0], method, path) {
        Some(routes[0])
    } else {
        matched_route(routes.drop_first(), method, path)
    }
}

/// The index of the first `'?'` in a path, or the path's length if it has
/// none: everything before it is the path proper, everything from it on is
/// the query string.
pub open spec fn first_query_mark(s: Seq<char>) -> int
    decreases s.len(),
{
    if s.len() == 0 {
        0
    } else if s[0] == '?' {
        0
    } else {
        1 + first_query_mark(s.drop_first())
    }
}

/// A request path as the matcher compares it: the part before any query
/// string, with an empty path standing for `/`.
pub open spec fn normalized_path(s: Seq<char>) -> Seq<char> {
    let p = s.take(first_query_mark(s));
    if p.len() == 0 {
        "/"@
    } else {
        p
    }
}

/// A scan that saw no `'?'` before `i` and one at `i` (or ran off the end
/// there) has found `first_query_mark`.
proof fn lemma_first_query_mark_at(s: Seq<char>, i: int)
    requires
        0 <= i <= s.len(),
        forall|j: int| 0 <= j < i ==> s[j] != '?',
        i < s.len() ==> s[i] == '?',
    ensures
        first_query_mark(s) == i,
    decreases s.len(),
{
    if i == 0 {
    } else {
        assert(s[0] != '?');
        lemma_first_query_mark_at(s.drop_first(), i - 1);
    }
}

/// Strips the query string and maps an empty path to `/`.
pub fn normalize_path(raw: &str) -> (p: String)
    ensures
        p@ == normalized_path(raw@),
{
    let n = raw.unicode_len();
    let mut i: usize = 0;
    while i < n
        invariant
            0 <= i <= n,
            n == raw@.len(),
            forall|j: int| 0 <= j < i ==> raw@[j] != '?',
        ensures
            0 <= i <= n,
            forall|j: int| 0 <= j < i ==> raw@[j] != '?',
            i < n ==> raw@[i as int] == '?',
        decreases n - i,
    {
        if raw.get_char(i) == '?' {
            break ;
        }
        i += 1;
    }
    proof {
        lemma_first_query_mark_at(raw@, i as int);
    }
    if i == 0 {
        proof {
            reveal_strlit("/");
        }
        String::from_str("/")
    } else {
        let stem = raw.substring_char(0, i);
        proof {
            assert(stem@ =~= raw@.take(i as int));
        }
        stem.to_owned()
    }
}

/// Whether a request method equals a stored route's method: exact
/// comparison of the closed variant set, no case folding.
pub fn method_matches(request_method: &HttpMethod, route_method: &HttpMethod) -> (r: bool)
    ensures
        r == (request_method == route_method),
{
    match (request_method, route_method) {
        (HttpMethod::Get, HttpMethod::Get) => true,
        (HttpMethod::Post, HttpMethod::Post) => true,
        (HttpMethod::Put, HttpMethod::Put) => true,
        (HttpMethod::Delete, HttpMethod::Delete) => true,
        (HttpMethod::Patch, HttpMethod::Patch) => true,
        (HttpMethod::Head, HttpMethod::Head) => true,
        (HttpMethod::Options, HttpMethod::Options) => true,
        _ => false,
    }
}

/// A prefix scan that matched nothing up to `i` and matches at `i` has
/// found the selected route.
proof fn lemma_matched_route_at(routes: Seq<Route>, method: HttpMethod, path: Seq<char>, i: int)
    requires
        0 <= i < routes.len(),
        route_matches(routes[i], method, path),
        forall|j: int| 0 <= j < i ==> !route_matches(routes[j], method, path),
    ensures
        matched_route(routes, method, path) == Some(routes[i]),
    decreases routes.len(),
{
    if i > 0 {
        lemma_matched_route_at(routes.drop_first(), method, path, i - 1);
    }
}

/// A scan that matched nothing selects nothing.
proof fn lemma_matched_route_none(routes: Seq<Route>, method: HttpMethod, path: Seq<char>)
    requires
        forall|j: int| 0 <= j < routes.len() ==> !route_matches(routes[j], method, path),
    ensures
        matched_route(routes, method, path) is None,
    decreases routes.len(),
{
    if routes.len() > 0 {
        lemma_matched_route_none(routes.drop_first(), method, path);
    }
}

/// The route store's invariant on one collection's routes: no two share
/// a (method, path) pair.
pub open spec fn unique_route_keys(routes: Seq<Route>) -> bool {
    forall|i: int, j: int|
        0 <= i < j < routes.len() ==> !(routes[i].method == routes[j].method && routes[i].path@
            == routes[j].path@)
}

/// When a collection's (method, path) pairs are unique, the matcher
/// selects exactly the stored route whose method and path a request
/// carries — whatever its position in the list.
pub proof fn lemma_unique_keys_match_exactly(routes: Seq<Route>, i: int)
    requires
        unique_route_keys(routes),
        0 <= i < routes.len(),
    ensures
        matched_route(routes, routes[i].method, routes[i].path@) == Some(routes[i]),
{
    lemma_matched_route_at(routes, routes[i].method, routes[i].path@, i);
}

/// The matcher selects nothing for a request whose (method, path) pair
/// no stored route carries: in particular, for any path other than a
/// stored route's, or any method other than its own.
pub proof fn lemma_no_key_no_match(routes: Seq<Route>, method: HttpMethod, path: Seq<char>)
    requires
        forall|j: int|
            0 <= j < routes.len() ==> !(routes[j].method == method && routes[j].path@ == path),
    ensures
        matched_route(routes, method, path) is None,
{
    lemma_matched_route_none(routes, method, path);
}

/// A request to a path no stored route is configured with matches
/// nothing, regardless of its method — so the listener answers it with
/// the not-found reply.
pub proof fn lemma_unknown_path_never_matches(routes: Seq<Route>, method: HttpMethod, path: Seq<
    char,
>)
    requires
        forall|j: int| 0 <= j < routes.len() ==> routes[j].path@ != path,
    ensures
        matched_route(routes, method, path) is None,
{
    lemma_matched_route_none(routes, method, path);
}

/// Selects the first stored route whose (method, path) equals the
/// request's, returning its index; `None` when no route matches.
pub fn find_route(routes: &Vec<Route>, method: &HttpMethod, path: &String) -> (r: Option<usize>)
    ensures
        match r {
            Some(i) => {
                &&& i < routes@.len()
                &&& route_matches(routes@[i as int], *method, path@)
                &&& forall|j: int| 0 <= j < i ==> !route_matches(routes@[j], *method, path@)
                &&& matched_route(routes@, *method, path@) == Some(routes@[i as int])
            },
            None => {
                &&& forall|j: int|
                    0 <= j < routes@.len() ==> !route_matches(routes@[j], *method, path@)
                &&& matched_route(routes@, *method, path@) is None
            },
        },
{
    let n = routes.len();
    let mut i: usize = 0;
    while i < n
        invariant
            0 <= i <= n,
            n == routes@.len(),
            forall|j: int| 0 <= j < i ==> !route_matches(routes@[j], *method, path@),
        decreases n - i,
    {
        let rt = &routes[i];
        if rt.path == *path && method_matches(method, &rt.method) {
            proof {
                lemma_matched_route_at(routes@, *method, path@, i as int);
            }
            return Some(i);
        }
        i += 1;
    }
    proof {
        lemma_matched_route_none(routes@, *method, path@);
    }
    None
}

} // verus!
