//! Request dispatch: from a method and a path to a route, and from a route
//! to a response.
use vstd::prelude::*;
use vstd::string::StringSliceAdditionalSpecFns;
use crate::counter::{error_count, error_count_reset, next_value, still_failing, ErrorCounter};
use crate::fault::{fails_at, random_error};
use crate::parse::{parse_i32, parse_u16, parsed_i32, parsed_u16};
use crate::redirect::{
    code_path, code_redirect, fixed_redirect, nested_redirect, nested_target, RedirectTarget,
};
use crate::status::{resolve_status, resolved_status, BAD_REQUEST, INTERNAL_SERVER_ERROR, NOT_FOUND, OK};

verus! {

/// What a request asks for, with its path parameter read.
#[derive(Debug, Clone, Copy, PartialEq, Eq, Structural)]
pub enum Route {
    /// `/`
    Home,
    /// `/responder.css`
    Stylesheet,
    /// `/healthz/`
    Healthz,
    /// `/code/{code}/` and `/empty/{code}/`
    Status(u16),
    /// `/error/random/{percent}/`
    RandomError(u16),
    /// `/error/count/{count}/`
    ErrorCount(i32),
    /// `/error/count/reset/`
    ResetCounter,
    /// `/redirect/`
    FixedRedirect,
    /// `/redirect/{code}/`
    CodeRedirect(u16),
    /// `/redirect/nested`
    NestedRedirect,
    /// A parameterised route whose parameter is not a number of its type.
    BadParameter,
    /// Any other path, or a method other than GET.
    NotFound,
}

/// What is sent back.
#[derive(Debug, Clone, PartialEq, Eq)]
pub enum Response {
    /// The home page.
    HomePage,
    /// The stylesheet, as `text/css`.
    Stylesheet,
    /// A status with an empty body.
    Empty(u16),
    /// A redirect.
    Redirect(RedirectTarget),
}

/// The bytes of an ASCII text.
pub open spec fn ascii(s: Seq<char>) -> Seq<u8> {
    s.map_values(|c: char| #[verifier::truncate] (c as u8))
}

/// The parameter of `p` under `prefix`: `p` is `prefix`, then one or more
/// bytes without `/`, then `/`.
pub open spec fn param_after(p: Seq<u8>, prefix: Seq<u8>) -> Option<Seq<u8>> {
    if p.len() > prefix.len() + 1 && p.subrange(0, prefix.len() as int) == prefix && p.last()
        == 47 && forall|i: int| prefix.len() <= i < p.len() - 1 ==> #[trigger] p[i] != 47 {
        Some(p.subrange(prefix.len() as int, p.len() - 1))
    } else {
        None
    }
}

pub open spec fn u16_route(v: Option<u16>, mk: spec_fn(u16) -> Route) -> Route {
    match v {
        Some(c) => mk(c),
        None => Route::BadParameter,
    }
}

/// The route of a request; `is_get` says whether its method is GET.
pub open spec fn route_of(is_get: bool, p: Seq<u8>) -> Route {
    if !is_get {
        Route::NotFound
    } else if p == ascii("/"@) {
        Route::Home
    } else if p == ascii("/responder.css"@) {
        Route::Stylesheet
    } else if p == ascii("/healthz/"@) {
        Route::Healthz
    } else if p == ascii("/error/count/reset/"@) {
        Route::ResetCounter
    } else if p == ascii("/redirect/"@) {
        Route::FixedRedirect
    } else if p == ascii("/redirect/nested"@) {
        Route::NestedRedirect
    } else if param_after(p, ascii("/code/"@)) is Some {
        u16_route(parsed_u16(param_after(p, ascii("/code/"@))->0), |c| Route::Status(c))
    } else if param_after(p, ascii("/empty/"@)) is Some {
        u16_route(parsed_u16(param_after(p, ascii("/empty/"@))->0), |c| Route::Status(c))
    } else if param_after(p, ascii("/error/random/"@)) is Some {
        u16_route(
            parsed_u16(param_after(p, ascii("/error/random/"@))->0),
            |c| Route::RandomError(c),
        )
    } else if param_after(p, ascii("/error/count/"@)) is Some {
        match parsed_i32(param_after(p, ascii("/error/count/"@))->0) {
            Some(t) => Route::ErrorCount(t),
            None => Route::BadParameter,
        }
    } else if param_after(p, ascii("/redirect/"@)) is Some {
        u16_route(
            parsed_u16(param_after(p, ascii("/redirect/"@))->0),
            |c| Route::CodeRedirect(c),
        )
    } else {
        Route::NotFound
    }
}

/// Whether `b[from..to]` spells `lit`.
fn spells(b: &[u8], from: usize, to: usize, lit: &str) -> (r: bool)
    requires
        from <= to <= b@.len(),
    ensures
        r == (b@.subrange(from as int, to as int) == ascii(lit@)),
{
    let n = lit.unicode_len();
    if to - from != n {
        assert(b@.subrange(from as int, to as int).len() != ascii(lit@).len());
        return false;
    }
    let mut i: usize = 0;
    while i < n
        invariant
            n == lit@.len(),
            to - from == n,
            from <= to <= b@.len(),
            i <= n,
            forall|k: int| 0 <= k < i ==> b@[from + k] == #[trigger] (#[verifier::truncate] (lit@[k] as u8)),
        decreases n - i,
    {
        if b[from + i] != #[verifier::truncate] (lit.get_char(i) as u8) {
            assert(b@.subrange(from as int, to as int)[i as int] != ascii(lit@)[i as int]);
            return false;
        }
        i = i + 1;
    }
    assert(b@.subrange(from as int, to as int) =~= ascii(lit@));
    true
}

/// Where `b` is `prefix`, a parameter and `/`: the index at which the
/// parameter starts.
fn param_start(b: &[u8], prefix: &str) -> (r: Option<usize>)
    ensures
        r is Some <==> param_after(b@, ascii(prefix@)) is Some,
        r is Some ==> r->0 == prefix@.len() && param_after(b@, ascii(prefix@))->0 == b@.subrange(
            r->0 as int,
            b@.len() - 1,
        ),
{
    let n = b.len();
    let k = prefix.unicode_len();
    assert(ascii(prefix@).len() == k);
    if n < 2 || n - 2 < k {
        return None;
    }
    if !spells(b, 0, k, prefix) || b[n - 1] != 47 {
        return None;
    }
    let mut i: usize = k;
    while i < n - 1
        invariant
            k <= i <= n - 1,
            n == b@.len(),
            k == prefix@.len(),
            ascii(prefix@).len() == k,
            forall|j: int| k <= j < i ==> #[trigger] b@[j] != 47,
        decreases n - 1 - i,
    {
        if b[i] == 47 {
            assert(b@[i as int] == 47);
            return None;
        }
        i = i + 1;
    }
    Some(k)
}

fn u16_param(b: &[u8], k: usize) -> (r: Option<u16>)
    requires
        k < b@.len(),
    ensures
        r == parsed_u16(b@.subrange(k as int, b@.len() - 1)),
{
    parse_u16(b, k, b.len() - 1)
}

/// The route of a request for `path`; `is_get` says whether its method is GET.
pub fn route(is_get: bool, path: &str) -> (r: Route)
    ensures
        r == route_of(is_get, path.spec_bytes()),
{
    let b = path.as_bytes();
    let n = b.len();
    assert(b@.subrange(0, n as int) =~= b@);
    if !is_get {
        Route::NotFound
    } else if spells(b, 0, n, "/") {
        Route::Home
    } else if spells(b, 0, n, "/responder.css") {
        Route::Stylesheet
    } else if spells(b, 0, n, "/healthz/") {
        Route::Healthz
    } else if spells(b, 0, n, "/error/count/reset/") {
        Route::ResetCounter
    } else if spells(b, 0, n, "/redirect/") {
        Route::FixedRedirect
    } else if spells(b, 0, n, "/redirect/nested") {
        Route::NestedRedirect
    } else if let Some(k) = param_start(b, "/code/") {
        match u16_param(b, k) {
            Some(c) => Route::Status(c),
            None => Route::BadParameter,
        }
    } else if let Some(k) = param_start(b, "/empty/") {
        match u16_param(b, k) {
            Some(c) => Route::Status(c),
            None => Route::BadParameter,
        }
    } else if let Some(k) = param_start(b, "/error/random/") {
        match u16_param(b, k) {
            Some(c) => Route::RandomError(c),
            None => Route::BadParameter,
        }
    } else if let Some(k) = param_start(b, "/error/count/") {
        match parse_i32(b, k, n - 1) {
            Some(t) => Route::ErrorCount(t),
            None => Route::BadParameter,
        }
    } else if let Some(k) = param_start(b, "/redirect/") {
        match u16_param(b, k) {
            Some(c) => Route::CodeRedirect(c),
            None => Route::BadParameter,
        }
    } else {
        Route::NotFound
    }
}

/// Whether a route reads or writes the error counter.
pub open spec fn uses_counter(route: Route) -> bool {
    route is ErrorCount || route is ResetCounter
}

/// The counter after a request on `route` from `before`.
pub open spec fn counter_after(route: Route, before: nat) -> nat {
    match route {
        Route::ErrorCount(_) => next_value(before),
        Route::ResetCounter => 0,
        _ => before,
    }
}

/// The response to a request on a route that leaves the counter alone, where
/// `draw` is the value drawn for a random error.
pub open spec fn plain_response(route: Route, draw: u16, r: Response) -> bool {
    match route {
        Route::Home => r == Response::HomePage,
        Route::Stylesheet => r == Response::Stylesheet,
        Route::Healthz => r == Response::Empty(OK),
        Route::Status(c) => r == Response::Empty(resolved_status(c)),
        Route::RandomError(p) => r == Response::Empty(
            if fails_at(p, draw) {
                INTERNAL_SERVER_ERROR
            } else {
                OK
            },
        ),
        Route::FixedRedirect => (r matches Response::Redirect(t) && t@ == (code_path(200), false)),
        Route::CodeRedirect(c) => (r matches Response::Redirect(t) && t@ == (
            code_path(c as nat),
            false,
        )),
        Route::NestedRedirect => (r matches Response::Redirect(t) && t@ == (nested_target(), true)),
        Route::BadParameter => r == Response::Empty(BAD_REQUEST),
        Route::NotFound => r == Response::Empty(NOT_FOUND),
        _ => false,
    }
}

fn respond_plain(route: Route) -> (r: Response)
    requires
        !uses_counter(route),
    ensures
        exists|draw: u16| 1 <= draw <= 100 && plain_response(route, draw, r),
        !(route is RandomError) ==> plain_response(route, 1, r),
{
    let r = match route {
        Route::Home => Response::HomePage,
        Route::Stylesheet => Response::Stylesheet,
        Route::Healthz => Response::Empty(OK),
        Route::Status(c) => Response::Empty(resolve_status(c)),
        Route::RandomError(p) => {
            let status = random_error(p);
            proof {
                let d = choose|d: u16|
                    1 <= d <= 100 && status == (if fails_at(p, d) {
                        INTERNAL_SERVER_ERROR
                    } else {
                        OK
                    });
                assert(plain_response(route, d, Response::Empty(status)));
            }
            Response::Empty(status)
        },
        Route::FixedRedirect => Response::Redirect(fixed_redirect()),
        Route::CodeRedirect(c) => Response::Redirect(code_redirect(c)),
        Route::NestedRedirect => Response::Redirect(nested_redirect()),
        Route::BadParameter => Response::Empty(BAD_REQUEST),
        _ => Response::Empty(NOT_FOUND),
    };
    proof {
        if !(route is RandomError) {
            assert(plain_response(route, 1, r));
        }
    }
    r
}

/// The response to a request on `route`, with the counter held: the counting
/// endpoints update it, every other route leaves it as it was.
pub fn respond(route: Route, counter: &mut ErrorCounter) -> (r: Response)
    ensures
        final(counter)@ == counter_after(route, old(counter)@),
        route matches Route::ErrorCount(t) ==> r == Response::Empty(
            if still_failing(final(counter)@, t as int) {
                INTERNAL_SERVER_ERROR
            } else {
                OK
            },
        ),
        route is ResetCounter ==> r == Response::Empty(OK),
        !uses_counter(route) ==> exists|draw: u16|
            1 <= draw <= 100 && plain_response(route, draw, r),
        !uses_counter(route) && !(route is RandomError) ==> plain_response(route, 1, r),
        route is Healthz ==> r == Response::Empty(OK),
{
    match route {
        Route::ErrorCount(t) => Response::Empty(error_count(counter, t)),
        Route::ResetCounter => Response::Empty(error_count_reset(counter)),
        _ => respond_plain(route),
    }
}

/// The response to a request on `route` when the counter cannot be had (its
/// lock was poisoned): the counting endpoints fail closed with a server
/// error, every other route answers as `respond` does.
pub fn respond_counter_unavailable(route: Route) -> (r: Response)
    ensures
        uses_counter(route) ==> r == Response::Empty(INTERNAL_SERVER_ERROR),
        !uses_counter(route) ==> exists|draw: u16|
            1 <= draw <= 100 && plain_response(route, draw, r),
        !uses_counter(route) && !(route is RandomError) ==> plain_response(route, 1, r),
        route is Healthz ==> r == Response::Empty(OK),
{
    if let Route::ErrorCount(_) = route {
        Response::Empty(INTERNAL_SERVER_ERROR)
    } else if let Route::ResetCounter = route {
        Response::Empty(INTERNAL_SERVER_ERROR)
    } else {
        respond_plain(route)
    }
}

} // verus!
