//! The request responder: the verified heart of a minimal single-threaded
//! HTTP server.
//!
//! A caller reads at most [`REQUEST_BUFFER_LEN`] bytes from a connection into
//! a zero-filled buffer, hands the buffer and the two page bodies to
//! [`respond`], and writes the returned bytes back to the connection. A
//! request is routed to the root page exactly when it begins with the literal
//! request line `GET / HTTP/1.1` followed by a carriage return and a line
//! feed; every other request is routed to the not-found page.

use vstd::prelude::*;
use vstd::string::StringExecFns;

verus! {

/// How many bytes of a request are read: a fixed-size buffer, with no
/// reassembly of longer requests.
pub const REQUEST_BUFFER_LEN: usize = 1024;

/// The byte at position `i` of the root request line `"GET / HTTP/1.1\r\n"`.
pub open spec fn root_line_byte_spec(i: int) -> u8 {
    if i == 0 {
        71
    } else if i == 1 {
        69
    } else if i == 2 {
        84
    } else if i == 3 {
        32
    } else if i == 4 {
        47
    } else if i == 5 {
        32
    } else if i == 6 {
        72
    } else if i == 7 {
        84
    } else if i == 8 {
        84
    } else if i == 9 {
        80
    } else if i == 10 {
        47
    } else if i == 11 {
        49
    } else if i == 12 {
        46
    } else if i == 13 {
        49
    } else if i == 14 {
        13
    } else {
        10
    }
}

/// The bytes of the root request line `"GET / HTTP/1.1\r\n"`.
pub open spec fn root_request_line() -> Seq<u8> {
    Seq::new(16, |i: int| root_line_byte_spec(i))
}

/// A request is for the root route exactly when it begins with the root
/// request line, byte for byte.
pub open spec fn is_root_request(req: Seq<u8>) -> bool {
    req.len() >= 16 && req.subrange(0, 16) == root_request_line()
}

/// Where a request is routed.
#[derive(Debug, Clone, Copy, PartialEq, Eq, Structural)]
pub enum Route {
    Root,
    NotFound,
}

/// The status line a route answers with.
pub open spec fn status_line_spec(route: Route) -> Seq<char> {
    match route {
        Route::Root => "HTTP/1.1 200 OK\r\n\r\n"@,
        Route::NotFound => "HTTP/1.1 404 NOT FOUND\r\n\r\n"@,
    }
}

/// The route a request buffer is classified into.
pub open spec fn classify_spec(req: Seq<u8>) -> Route {
    if is_root_request(req) {
        Route::Root
    } else {
        Route::NotFound
    }
}

/// The full response to a request buffer, given the contents of the root
/// page and of the not-found page: the route's status line followed by the
/// verbatim contents of the route's page.
pub open spec fn response_spec(req: Seq<u8>, hello: Seq<char>, not_found: Seq<char>) -> Seq<char> {
    if is_root_request(req) {
        status_line_spec(Route::Root) + hello
    } else {
        status_line_spec(Route::NotFound) + not_found
    }
}

/// The byte at position `i` of the root request line.
fn root_line_byte(i: usize) -> (b: u8)
    requires
        i < 16,
    ensures
        b == root_line_byte_spec(i as int),
{
    if i == 0 {
        71
    } else if i == 1 {
        69
    } else if i == 2 {
        84
    } else if i == 3 {
        32
    } else if i == 4 {
        47
    } else if i == 5 {
        32
    } else if i == 6 {
        72
    } else if i == 7 {
        84
    } else if i == 8 {
        84
    } else if i == 9 {
        80
    } else if i == 10 {
        47
    } else if i == 11 {
        49
    } else if i == 12 {
        46
    } else if i == 13 {
        49
    } else if i == 14 {
        13
    } else {
        10
    }
}

/// Classifies a request buffer: the root route exactly when the buffer
/// begins with the root request line, the not-found route otherwise.
pub fn classify(request: &[u8]) -> (r: Route)
    ensures
        r == classify_spec(request@),
{
    if request.len() < 16 {
        assert(!is_root_request(request@));
        return Route::NotFound;
    }
    let mut i: usize = 0;
    while i < 16
        invariant
            request@.len() >= 16,
            i <= 16,
            forall|j: int| 0 <= j < i ==> request@[j] == root_line_byte_spec(j),
        decreases 16 - i,
    {
        if request[i] != root_line_byte(i) {
            assert(request@.subrange(0, 16)[i as int] != root_request_line()[i as int]);
            return Route::NotFound;
        }
        i += 1;
    }
    proof {
        assert(request@.subrange(0, 16) =~= root_request_line());
    }
    Route::Root
}

/// The status line for a route.
pub fn status_line(route: Route) -> (r: &'static str)
    ensures
        r@ == status_line_spec(route),
{
    match route {
        Route::Root => "HTTP/1.1 200 OK\r\n\r\n",
        Route::NotFound => "HTTP/1.1 404 NOT FOUND\r\n\r\n",
    }
}

/// The route's status line followed directly by the page contents: no other
/// headers, no separation beyond the status line's own trailing blank line.
pub fn build_response(route: Route, contents: &str) -> (r: String)
    ensures
        r@ == status_line_spec(route) + contents@,
{
    let mut r = String::from_str(status_line(route));
    r.append(contents);
    r
}

/// Responds to one request buffer, given the two page bodies: the root page
/// behind a 200 status line when the buffer begins with the root request
/// line, the not-found page behind a 404 status line otherwise.
pub fn respond(request: &[u8], hello_contents: &str, not_found_contents: &str) -> (r: String)
    ensures
        r@ == response_spec(request@, hello_contents@, not_found_contents@),
        is_root_request(request@) ==> r@ == status_line_spec(Route::Root) + hello_contents@,
        !is_root_request(request@) ==> r@ == status_line_spec(Route::NotFound)
            + not_found_contents@,
{
    let route = classify(request);
    match route {
        Route::Root => build_response(Route::Root, hello_contents),
        Route::NotFound => build_response(Route::NotFound, not_found_contents),
    }
}

/// The root request line followed by any suffix at all is classified as a
/// root request.
pub proof fn lemma_root_line_with_any_suffix(suffix: Seq<u8>)
    ensures
        is_root_request(root_request_line() + suffix),
{
    assert((root_request_line() + suffix).subrange(0, 16) =~= root_request_line());
}

/// Responding is a pure function of the request bytes and the page bodies:
/// the same request with the same files yields a byte-identical response, so
/// nothing carries over from one request to the next.
pub proof fn lemma_response_idempotent(
    req1: Seq<u8>,
    req2: Seq<u8>,
    hello: Seq<char>,
    not_found: Seq<char>,
)
    requires
        req1 == req2,
    ensures
        response_spec(req1, hello, not_found) == response_spec(req2, hello, not_found),
{
}

/// Classification looks only at the first sixteen bytes: two requests that
/// agree there are routed the same way.
pub proof fn lemma_classification_depends_on_prefix(a: Seq<u8>, b: Seq<u8>)
    requires
        a.len() >= 16,
        b.len() >= 16,
        a.subrange(0, 16) == b.subrange(0, 16),
    ensures
        classify_spec(a) == classify_spec(b),
{
}

/// Zero bytes left in the buffer after short request data never change the
/// classification: padding the data with trailing zeros routes exactly as
/// the data alone would.
pub proof fn lemma_classification_ignores_zero_fill(data: Seq<u8>, padded: Seq<u8>)
    requires
        padded.len() >= data.len(),
        padded.subrange(0, data.len() as int) == data,
        forall|i: int| data.len() <= i < padded.len() ==> padded[i] == 0,
    ensures
        classify_spec(padded) == classify_spec(data),
{
    if data.len() >= 16 {
        assert(padded.subrange(0, 16) =~= data.subrange(0, 16)) by {
            assert(forall|j: int|
                0 <= j < 16 ==> padded.subrange(0, 16)[j] == #[trigger] data.subrange(0, 16)[j]);
        }
        lemma_classification_depends_on_prefix(padded, data);
    } else {
        assert(!is_root_request(data));
        if padded.len() >= 16 {
            let k = data.len() as int;
            assert(padded.subrange(0, 16)[k] == 0);
            assert(root_request_line()[k] != 0);
            assert(padded.subrange(0, 16) != root_request_line());
        }
    }
}

/// The whole response is unchanged by trailing zero fill: the buffer a short
/// read leaves behind is answered exactly as the request data alone.
pub proof fn lemma_response_ignores_zero_fill(
    data: Seq<u8>,
    padded: Seq<u8>,
    hello: Seq<char>,
    not_found: Seq<char>,
)
    requires
        padded.len() >= data.len(),
        padded.subrange(0, data.len() as int) == data,
        forall|i: int| data.len() <= i < padded.len() ==> padded[i] == 0,
    ensures
        response_spec(padded, hello, not_found) == response_spec(data, hello, not_found),
{
    lemma_classification_ignores_zero_fill(data, padded);
}

} // verus!

