//! Response synthesis: turning a matched route definition into a concrete
//! response plan — status, headers, body, and the configured delay.
//!
//! Header handling follows one documented policy: a stored header is kept
//! only when its name is a non-empty HTTP token and its value consists of
//! visible ASCII, space or tab; anything else is dropped individually,
//! never failing the whole response. When no stored header is named
//! `content-type` (compared ASCII-case-insensitively), a default
//! `content-type: application/json` header is appended.

use vstd::prelude::*;
use vstd::string::StringExecFns;
use vstd::utf8::encode_utf8;
use crate::matcher::{matched_route, normalize_path, normalized_path};
use crate::models::{Header, HttpMethod, Route};
use crate::numerals::{dec_rep, usize_to_string};

verus! {

/// The response the listener will put on the wire for one request, plus
/// the artificial delay to apply before writing it.
#[derive(Debug)]
pub struct ResponsePlan {
    pub status_code: u16,
    pub headers: Vec<Header>,
    pub body: String,
    pub delay_ms: Option<u32>,
}

/// An HTTP token character: what a header name may consist of.
pub open spec fn is_token_char(c: char) -> bool {
    let u = c as u32;
    (48 <= u <= 57) || (65 <= u <= 90) || (97 <= u <= 122) || c == '!' || c == '#' || c == '$'
        || c == '%' || c == '&' || c == '\'' || c == '*' || c == '+' || c == '-' || c == '.'
        || c == '^' || c == '_' || c == '`' || c == '|' || c == '~'
}

/// A character a header value may carry on the wire: visible ASCII,
/// space, or horizontal tab.
pub open spec fn is_value_char(c: char) -> bool {
    let u = c as u32;
    (32 <= u <= 126) || u == 9
}

/// A header name fit for wire transmission.
pub open spec fn valid_header_name(s: Seq<char>) -> bool {
    s.len() > 0 && forall|i: int| 0 <= i < s.len() ==> is_token_char(s[i])
}

/// A header value fit for wire transmission.
pub open spec fn valid_header_value(s: Seq<char>) -> bool {
    forall|i: int| 0 <= i < s.len() ==> is_value_char(s[i])
}

/// A stored header that is kept rather than dropped.
pub open spec fn wire_safe_header(h: Header) -> bool {
    valid_header_name(h.name@) && valid_header_value(h.value@)
}

/// An ASCII character folded to lower case, as a code point.
pub open spec fn lower_code(c: char) -> int {
    if 65 <= c as u32 <= 90 {
        c as int + 32
    } else {
        c as int
    }
}

/// ASCII-case-insensitive equality of two character sequences.
pub open spec fn ascii_eq_ignore_case(a: Seq<char>, b: Seq<char>) -> bool {
    a.len() == b.len() && forall|i: int| 0 <= i < a.len() ==> lower_code(a[i]) == lower_code(b[i])
}

/// Whether a stored header name designates the content type.
pub open spec fn names_content_type(s: Seq<char>) -> bool {
    ascii_eq_ignore_case(s, "content-type"@)
}

/// Whether any stored header names the content type; decided over the
/// stored set, before invalid headers are dropped.
pub open spec fn has_content_type(hs: Seq<Header>) -> bool {
    exists|i: int| 0 <= i < hs.len() && names_content_type(hs[i].name@)
}

/// The stored headers kept for the wire, in stored order.
pub open spec fn kept_headers(hs: Seq<Header>) -> Seq<Header> {
    hs.filter(|h: Header| wire_safe_header(h))
}

/// The default header appended when no stored one names the content type.
pub open spec fn is_default_content_type(h: Header) -> bool {
    h.name@ == "content-type"@ && h.value@ == "application/json"@
}

/// The `content-type: text/plain; charset=utf-8` header that the engine's
/// own plain-text replies carry.
pub open spec fn is_text_plain_content_type(h: Header) -> bool {
    h.name@ == "content-type"@ && h.value@ == "text/plain; charset=utf-8"@
}

/// The headers a synthesized response carries, given the stored set: the
/// wire-safe stored headers in order, with the default content type
/// appended when no stored header named one.
pub open spec fn synthesized_headers(stored: Seq<Header>, out: Seq<Header>) -> bool {
    let kept = kept_headers(stored);
    if has_content_type(stored) {
        out == kept
    } else {
        out.len() == kept.len() + 1 && out.drop_last() == kept && is_default_content_type(
            out.last(),
        )
    }
}

/// The header set a route is configured with; none stored means none.
pub open spec fn stored_headers(rt: Route) -> Seq<Header> {
    match rt.response_headers {
        Some(hs) => hs@,
        None => Seq::<Header>::empty(),
    }
}

/// The body a route answers with: the stored body verbatim, empty if
/// absent.
pub open spec fn configured_body(rt: Route) -> Seq<char> {
    match rt.response_body {
        Some(b) => b@,
        None => Seq::<char>::empty(),
    }
}

/// The full relation between a matched route and the plan synthesized for
/// it: status verbatim, body verbatim, headers per the header policy, and
/// the configured delay passed through untouched.
pub open spec fn plan_for_route(rt: Route, p: ResponsePlan) -> bool {
    &&& p.status_code == rt.status_code
    &&& p.delay_ms == rt.delay_ms
    &&& p.body@ == configured_body(rt)
    &&& synthesized_headers(stored_headers(rt), p.headers@)
}

/// The reply for a request no stored route answers.
pub open spec fn is_not_found_plan(p: ResponsePlan) -> bool {
    &&& p.status_code == 404
    &&& p.delay_ms is None
    &&& p.body@ == "Route not found"@
    &&& p.headers@.len() == 1
    &&& is_text_plain_content_type(p.headers@[0])
}

/// The reply for a request during which the route store could not be
/// read.
pub open spec fn is_store_error_plan(p: ResponsePlan) -> bool {
    &&& p.status_code == 500
    &&& p.delay_ms is None
    &&& p.body@ == "Database error"@
    &&& p.headers@.len() == 1
    &&& is_text_plain_content_type(p.headers@[0])
}

/// The ASCII lower-case code point of a character.
fn lower_code_of(c: char) -> (r: u32)
    ensures
        r == lower_code(c),
{
    let u = c as u32;
    if 65 <= u && u <= 90 {
        u + 32
    } else {
        u
    }
}

/// ASCII-case-insensitive equality of two strings.
fn eq_ignore_ascii_case(a: &str, b: &str) -> (r: bool)
    ensures
        r == ascii_eq_ignore_case(a@, b@),
{
    let na = a.unicode_len();
    let nb = b.unicode_len();
    if na != nb {
        return false;
    }
    let mut i: usize = 0;
    while i < na
        invariant
            0 <= i <= na,
            na == a@.len(),
            na == b@.len(),
            forall|j: int| 0 <= j < i ==> lower_code(a@[j]) == lower_code(b@[j]),
        decreases na - i,
    {
        if lower_code_of(a.get_char(i)) != lower_code_of(b.get_char(i)) {
            return false;
        }
        i += 1;
    }
    true
}

/// Whether a stored header name designates the content type.
fn is_content_type_name(name: &str) -> (r: bool)
    ensures
        r == names_content_type(name@),
{
    eq_ignore_ascii_case(name, "content-type")
}

/// Whether a header name is a non-empty HTTP token.
fn check_header_name(s: &str) -> (r: bool)
    ensures
        r == valid_header_name(s@),
{
    let n = s.unicode_len();
    if n == 0 {
        return false;
    }
    let mut i: usize = 0;
    while i < n
        invariant
            0 <= i <= n,
            n == s@.len(),
            forall|j: int| 0 <= j < i ==> is_token_char(s@[j]),
        decreases n - i,
    {
        let c = s.get_char(i);
        let u = c as u32;
        let ok = (48 <= u && u <= 57) || (65 <= u && u <= 90) || (97 <= u && u <= 122) || c == '!'
            || c == '#' || c == '$' || c == '%' || c == '&' || c == '\'' || c == '*' || c == '+'
            || c == '-' || c == '.' || c == '^' || c == '_' || c == '`' || c == '|' || c == '~';
        if !ok {
            return false;
        }
        i += 1;
    }
    true
}

/// Whether a header value consists of wire-safe characters.
fn check_header_value(s: &str) -> (r: bool)
    ensures
        r == valid_header_value(s@),
{
    let n = s.unicode_len();
    let mut i: usize = 0;
    while i < n
        invariant
            0 <= i <= n,
            n == s@.len(),
            forall|j: int| 0 <= j < i ==> is_value_char(s@[j]),
        decreases n - i,
    {
        let c = s.get_char(i);
        let u = c as u32;
        if !((32 <= u && u <= 126) || u == 9) {
            return false;
        }
        i += 1;
    }
    true
}

/// The engine's own plain-text reply with the given status and message.
fn plain_text_plan(status_code: u16, message: &str) -> (p: ResponsePlan)
    ensures
        p.status_code == status_code,
        p.delay_ms is None,
        p.body@ == message@,
        p.headers@.len() == 1,
        is_text_plain_content_type(p.headers@[0]),
{
    let mut headers: Vec<Header> = Vec::new();
    headers.push(
        Header {
            name: String::from_str("content-type"),
            value: String::from_str("text/plain; charset=utf-8"),
        },
    );
    ResponsePlan { status_code, headers, body: message.to_owned(), delay_ms: None }
}

/// Builds the wire header list for a route: keeps each wire-safe stored
/// header in order and appends the default content type when no stored
/// header named one.
fn synthesize_headers(route: &Route) -> (out: Vec<Header>)
    ensures
        synthesized_headers(stored_headers(*route), out@),
{
    let ghost stored = stored_headers(*route);
    let mut out: Vec<Header> = Vec::new();
    let mut has_ct = false;
    match &route.response_headers {
        Some(hs) => {
            let n = hs.len();
            let mut i: usize = 0;
            while i < n
                invariant
                    0 <= i <= n,
                    n == stored.len(),
                    hs@ == stored,
                    out@ == kept_headers(stored.take(i as int)),
                    has_ct == has_content_type(stored.take(i as int)),
                decreases n - i,
            {
                let h = &hs[i];
                if is_content_type_name(h.name.as_str()) {
                    has_ct = true;
                }
                if check_header_name(h.name.as_str()) && check_header_value(h.value.as_str()) {
                    out.push(Header { name: h.name.clone(), value: h.value.clone() });
                }
                proof {
                    reveal(Seq::filter);
                    let t1 = stored.take(i as int + 1);
                    assert(t1.drop_last() =~= stored.take(i as int));
                    assert(t1.last() == stored[i as int]);
                    assert(out@ =~= kept_headers(t1));
                    assert(has_content_type(t1) == (has_content_type(stored.take(i as int))
                        || names_content_type(stored[i as int].name@))) by {
                        if has_content_type(stored.take(i as int)) {
                            let w = choose|k: int|
                                0 <= k < stored.take(i as int).len() && names_content_type(
                                    stored.take(i as int)[k].name@,
                                );
                            assert(0 <= w < t1.len() && names_content_type(t1[w].name@));
                        }
                        if names_content_type(stored[i as int].name@) {
                            assert(0 <= i < t1.len() && names_content_type(t1[i as int].name@));
                        }
                        if has_content_type(t1) {
                            let w = choose|k: int|
                                0 <= k < t1.len() && names_content_type(t1[k].name@);
                            if w < i {
                                assert(0 <= w < stored.take(i as int).len() && names_content_type(
                                    stored.take(i as int)[w].name@,
                                ));
                            }
                        }
                    }
                }
                i += 1;
            }
            proof {
                assert(stored.take(n as int) =~= stored);
            }
        },
        None => {
            proof {
                reveal(Seq::filter);
                assert(stored =~= Seq::<Header>::empty());
                assert(kept_headers(stored) =~= Seq::<Header>::empty());
            }
        },
    }
    if !has_ct {
        out.push(
            Header {
                name: String::from_str("content-type"),
                value: String::from_str("application/json"),
            },
        );
        proof {
            assert(out@.drop_last() =~= kept_headers(stored));
        }
    }
    out
}

/// Turns a matched route into the response to put on the wire: the stored
/// status verbatim — never suppressed or special-cased — the stored body
/// verbatim (empty if absent), the header policy's header list, and the
/// configured delay for the listener to apply before replying.
pub fn synthesize(route: &Route) -> (p: ResponsePlan)
    ensures
        plan_for_route(*route, p),
{
    let headers = synthesize_headers(route);
    let body = match &route.response_body {
        Some(b) => b.clone(),
        None => String::new(),
    };
    ResponsePlan { status_code: route.status_code, headers, body, delay_ms: route.delay_ms }
}

/// The reply for a request no stored route answers: a normal outcome, not
/// an engine error.
pub fn not_found_plan() -> (p: ResponsePlan)
    ensures
        is_not_found_plan(p),
{
    plain_text_plan(404, "Route not found")
}

/// The reply for a request during which the route store could not be
/// read: the one failure the listener recovers from locally.
pub fn store_error_plan() -> (p: ResponsePlan)
    ensures
        is_store_error_plan(p),
{
    plain_text_plan(500, "Database error")
}

/// Answers one request, given the route list read fresh from the store
/// (`None` when that read failed), the request method, and the raw
/// request path: strips the query string, matches, and synthesizes.
pub fn handle_mock_request(routes: Option<&Vec<Route>>, method: &HttpMethod, raw_path: &str) -> (p:
    ResponsePlan)
    ensures
        match routes {
            Some(rs) => match matched_route(rs@, *method, normalized_path(raw_path@)) {
                Some(rt) => plan_for_route(rt, p),
                None => is_not_found_plan(p),
            },
            None => is_store_error_plan(p),
        },
{
    match routes {
        Some(rs) => {
            let path = normalize_path(raw_path);
            match crate::matcher::find_route(rs, method, &path) {
                Some(i) => synthesize(&rs[i]),
                None => not_found_plan(),
            }
        },
        None => store_error_plan(),
    }
}

/// One header as it goes on the wire.
pub open spec fn header_line(h: Header) -> Seq<char> {
    h.name@ + ": "@ + h.value@ + "\r\n"@
}

/// A plan's headers as they go on the wire, in plan order.
pub open spec fn header_lines(hs: Seq<Header>) -> Seq<char>
    decreases hs.len(),
{
    if hs.len() == 0 {
        Seq::<char>::empty()
    } else {
        header_lines(hs.drop_last()) + header_line(hs.last())
    }
}

/// A plan's bytes on the wire, as text: the stored status verbatim with
/// an empty reason phrase, every header line in order, a content length
/// counting the body's UTF-8 bytes, and the body verbatim.
pub open spec fn wire_text(p: ResponsePlan) -> Seq<char> {
    "HTTP/1.1 "@ + dec_rep(p.status_code as int) + " \r\n"@ + header_lines(p.headers@)
        + "content-length: "@ + dec_rep(encode_utf8(p.body@).len() as usize as int) + "\r\n\r\n"@
        + p.body@
}

/// Renders a plan as the text to put on the wire. The result is ready
/// for the transport to encode and write after applying the plan's
/// delay; any transport-level headers go into the plan's list first.
pub fn render_plan(plan: &ResponsePlan) -> (s: String)
    ensures
        s@ == wire_text(*plan),
{
    let mut s = String::from_str("HTTP/1.1 ");
    s.append(usize_to_string(plan.status_code as usize).as_str());
    s.append(" \r\n");
    let ghost head = "HTTP/1.1 "@ + dec_rep(plan.status_code as int) + " \r\n"@;
    let n = plan.headers.len();
    let mut i: usize = 0;
    while i < n
        invariant
            0 <= i <= n,
            n == plan.headers@.len(),
            s@ == head + header_lines(plan.headers@.take(i as int)),
        decreases n - i,
    {
        let h = &plan.headers[i];
        s.append(h.name.as_str());
        s.append(": ");
        s.append(h.value.as_str());
        s.append("\r\n");
        proof {
            let t1 = plan.headers@.take(i as int + 1);
            assert(t1.drop_last() =~= plan.headers@.take(i as int));
            assert(t1.last() == plan.headers@[i as int]);
            assert(s@ =~= head + header_lines(t1));
        }
        i += 1;
    }
    proof {
        assert(plan.headers@.take(n as int) =~= plan.headers@);
    }
    s.append("content-length: ");
    let body_len = plan.body.as_str().len();
    s.append(usize_to_string(body_len).as_str());
    s.append("\r\n\r\n");
    s.append(plan.body.as_str());
    proof {
        assert(s@ =~= wire_text(*plan));
    }
    s
}

} // verus!
