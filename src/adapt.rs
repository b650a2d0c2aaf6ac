//! Translation between the transport's values and the ones handlers work with.
use vstd::prelude::*;
use crate::message::{
    failure_body, failure_response, HttpRequest, Request, RequestView, Response, ResponseSink,
    ResponseView,
};
use crate::syntax::{
    check_header_value, check_method, check_status, check_uri, header_name,
    internal_server_error, is_header_name, is_header_value, is_method, is_status, lowered,
    parses_as_uri,
};

verus! {

/// Why a request could not be turned into a `Request`.
#[derive(Debug, Clone, Copy, PartialEq, Eq)]
pub enum AdaptError {
    /// The method is not a token.
    Method,
    /// The target does not parse as a URI.
    Uri,
    /// The name of the header field at this index is not a token.
    HeaderName(usize),
    /// The value of the header field at this index holds a control character.
    HeaderValue(usize),
}

pub open spec fn is_header(h: (Seq<u8>, Seq<u8>)) -> bool {
    is_header_name(h.0) && is_header_value(h.1)
}

pub open spec fn are_headers(hs: Seq<(Seq<u8>, Seq<u8>)>) -> bool {
    forall|i: int| 0 <= i < hs.len() ==> is_header(#[trigger] hs[i])
}

/// Whether the header field at `i` is the first one that is not valid.
pub open spec fn first_bad_header(hs: Seq<(Seq<u8>, Seq<u8>)>, i: int) -> bool {
    &&& 0 <= i < hs.len()
    &&& !is_header(hs[i])
    &&& forall|j: int| 0 <= j < i ==> is_header(#[trigger] hs[j])
}

/// The error for the invalid header field `h` at index `i`: its name is looked at first.
pub open spec fn header_error(h: (Seq<u8>, Seq<u8>), i: usize) -> AdaptError {
    if !is_header_name(h.0) {
        AdaptError::HeaderName(i)
    } else {
        AdaptError::HeaderValue(i)
    }
}

/// Why a request from the transport that cannot be turned into a `Request` is refused.
pub open spec fn adapt_error(r: RequestView) -> AdaptError {
    if !is_method(r.method) {
        AdaptError::Method
    } else if !parses_as_uri(r.uri) {
        AdaptError::Uri
    } else {
        let i = choose|i: int| first_bad_header(r.headers, i);
        header_error(r.headers[i], i as usize)
    }
}

/// Whether a request from the transport can be turned into a `Request`.
pub open spec fn adapts(r: RequestView) -> bool {
    is_method(r.method) && parses_as_uri(r.uri) && are_headers(r.headers)
}

pub open spec fn normalized(hs: Seq<(Seq<u8>, Seq<u8>)>) -> Seq<(Seq<u8>, Seq<u8>)> {
    hs.map_values(|h: (Seq<u8>, Seq<u8>)| (lowered(h.0), h.1))
}

/// The request that handlers see for a request from the transport: the same, with header
/// names in lower case.
pub open spec fn adapted(r: RequestView) -> RequestView {
    RequestView { method: r.method, uri: r.uri, headers: normalized(r.headers), body: r.body }
}

proof fn lemma_first_bad_header_unique(hs: Seq<(Seq<u8>, Seq<u8>)>, i: int)
    requires
        first_bad_header(hs, i),
    ensures
        (choose|k: int| first_bad_header(hs, k)) == i,
{
    let k = choose|k: int| first_bad_header(hs, k);
    if k < i {
        assert(is_header(hs[k]));
    } else if i < k {
        assert(is_header(hs[i]));
    }
}

impl Request {
    /// Checks a request from the transport and turns it into a `Request`. The method is
    /// checked first, then the target, then the header fields in order.
    pub fn from_http(raw: HttpRequest) -> (r: Result<Request, AdaptError>)
        ensures
            r is Ok <==> adapts(raw@),
            r matches Ok(q) ==> q@ == adapted(raw@),
            !adapts(raw@) ==> r == Err::<Request, AdaptError>(adapt_error(raw@)),
    {
        if !check_method(raw.method.as_slice()) {
            return Err(AdaptError::Method);
        }
        if !check_uri(raw.uri.as_slice()) {
            return Err(AdaptError::Uri);
        }
        let ghost hs = raw@.headers;
        let n = raw.headers.len();
        let mut headers: Vec<(Vec<u8>, Vec<u8>)> = Vec::new();
        let mut i: usize = 0;
        while i < n
            invariant
                n == raw.headers.len(),
                hs == raw@.headers,
                is_method(raw@.method),
                parses_as_uri(raw@.uri),
                0 <= i <= n,
                forall|j: int| 0 <= j < i ==> is_header(#[trigger] hs[j]),
                headers.deep_view() == normalized(hs.take(i as int)),
            decreases n - i,
        {
            let name = &raw.headers[i].0;
            let value = &raw.headers[i].1;
            assert(name.deep_view() =~= name@);
            assert(value.deep_view() =~= value@);
            assert(hs[i as int] == (name@, value@));
            let lower = match header_name(name.as_slice()) {
                Some(l) => l,
                None => {
                    proof {
                        lemma_first_bad_header_unique(hs, i as int);
                    }
                    return Err(AdaptError::HeaderName(i));
                },
            };
            if !check_header_value(value.as_slice()) {
                proof {
                    lemma_first_bad_header_unique(hs, i as int);
                }
                return Err(AdaptError::HeaderValue(i));
            }
            let copy = value.clone();
            assert(copy@ =~= value@);
            let ghost before = headers.deep_view();
            let ghost entry = (lower@, copy@);
            assert(lower.deep_view() =~= lower@);
            assert(copy.deep_view() =~= copy@);
            headers.push((lower, copy));
            assert(headers.deep_view() =~= before.push(entry));
            assert(hs.take(i as int + 1) =~= hs.take(i as int).push(hs[i as int]));
            assert(normalized(hs.take(i as int + 1)) =~= normalized(hs.take(i as int)).push(
                entry,
            ));
            i = i + 1;
        }
        assert(hs.take(n as int) =~= hs);
        proof {
            assert forall|k: int| !#[trigger] first_bad_header(hs, k) by {}
        }
        Ok(Request { method: raw.method, uri: raw.uri, headers, body: raw.body })
    }
}

/// Whether a response can be put on the wire: a status code of three digits, and header
/// fields that are valid.
pub open spec fn writable(r: ResponseView) -> bool {
    is_status(r.status) && are_headers(r.headers)
}

/// Checks the header fields of a response one by one.
pub(crate) fn check_headers(hs: &Vec<(Vec<u8>, Vec<u8>)>) -> (r: bool)
    ensures
        r == are_headers(hs.deep_view()),
{
    let n = hs.len();
    let mut i: usize = 0;
    while i < n
        invariant
            n == hs.len(),
            0 <= i <= n,
            forall|j: int| 0 <= j < i ==> is_header(#[trigger] hs.deep_view()[j]),
        decreases n - i,
    {
        let name = &hs[i].0;
        let value = &hs[i].1;
        assert(name.deep_view() =~= name@);
        assert(value.deep_view() =~= value@);
        assert(hs.deep_view()[i as int] == (name@, value@));
        if header_name(name.as_slice()).is_none() || !check_header_value(value.as_slice()) {
            return false;
        }
        i = i + 1;
    }
    true
}

/// Writes the failure response: status 500 and the body "Internal Server Error".
pub fn write_failure(sink: &mut ResponseSink)
    ensures
        final(sink)@ == old(sink)@.push(failure_response()),
{
    let body: Vec<u8> = vec![
        73u8, 110, 116, 101, 114, 110, 97, 108, 32, 83, 101, 114, 118, 101, 114, 32, 69, 114,
        114, 111, 114,
    ];
    let headers: Vec<(Vec<u8>, Vec<u8>)> = Vec::new();
    assert(headers.deep_view() =~= seq![]);
    assert(body@ =~= failure_body());
    let r = Response::new(internal_server_error(), headers, body).unwrap();
    sink.write(r);
}

impl Response {
    /// Writes this response to the sink as it is: status, header fields and body.
    pub fn write_back(self, sink: &mut ResponseSink)
        ensures
            final(sink)@ == old(sink)@.push(self@),
    {
        sink.write(self);
    }
}

} // verus!
