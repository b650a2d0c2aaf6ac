//! The values that cross the dispatch core: requests as the transport hands them over and
//! as handlers see them, responses, and the sink that responses are written to.
use vstd::prelude::*;
use crate::adapt::{check_headers, writable};
use crate::syntax::check_status;

verus! {

/// What a request holds: its method, its target, its header fields in order, and its body.
pub ghost struct RequestView {
    pub method: Seq<u8>,
    pub uri: Seq<u8>,
    pub headers: Seq<(Seq<u8>, Seq<u8>)>,
    pub body: Seq<u8>,
}

/// What a response is, as far as anything on the wire can tell: its status code, its
/// header fields in order, and its body.
pub ghost struct ResponseView {
    pub status: u16,
    pub headers: Seq<(Seq<u8>, Seq<u8>)>,
    pub body: Seq<u8>,
}

/// A request as the transport layer parsed it off the wire, not yet checked.
#[derive(Debug)]
pub struct HttpRequest {
    pub method: Vec<u8>,
    pub uri: Vec<u8>,
    pub headers: Vec<(Vec<u8>, Vec<u8>)>,
    pub body: Vec<u8>,
}

impl View for HttpRequest {
    type V = RequestView;

    open spec fn view(&self) -> RequestView {
        RequestView {
            method: self.method@,
            uri: self.uri@,
            headers: self.headers.deep_view(),
            body: self.body@,
        }
    }
}

/// A checked request, as handlers receive it: a valid method and target, and header
/// fields whose names are in lower case.
#[derive(Debug)]
pub struct Request {
    pub method: Vec<u8>,
    pub uri: Vec<u8>,
    pub headers: Vec<(Vec<u8>, Vec<u8>)>,
    pub body: Vec<u8>,
}

impl View for Request {
    type V = RequestView;

    open spec fn view(&self) -> RequestView {
        RequestView {
            method: self.method@,
            uri: self.uri@,
            headers: self.headers.deep_view(),
            body: self.body@,
        }
    }
}

/// An outgoing response: a status code, header fields (name, value) in the order
/// they are to be written, and a body. It can always be put on the wire: the status code
/// has three digits and every header field is valid.
#[derive(Debug)]
pub struct Response {
    status: u16,
    headers: Vec<(Vec<u8>, Vec<u8>)>,
    body: Vec<u8>,
}

impl View for Response {
    type V = ResponseView;

    closed spec fn view(&self) -> ResponseView {
        ResponseView { status: self.status, headers: self.headers.deep_view(), body: self.body@ }
    }
}

impl Response {
    #[verifier::type_invariant]
    pub open spec fn inv(&self) -> bool {
        writable(self@)
    }

    /// A response with the given status, header fields and body, where it can be put on
    /// the wire; `None` where the status code does not have three digits or a header field
    /// is not valid.
    pub fn new(status: u16, headers: Vec<(Vec<u8>, Vec<u8>)>, body: Vec<u8>) -> (r: Option<
        Response,
    >)
        ensures
            r is Some <==> writable(
                ResponseView { status, headers: headers.deep_view(), body: body@ },
            ),
            r matches Some(x) ==> x@ == (ResponseView {
                status,
                headers: headers.deep_view(),
                body: body@,
            }),
    {
        if check_status(status) && check_headers(&headers) {
            Some(Response { status, headers, body })
        } else {
            None
        }
    }

    pub fn status(&self) -> (r: u16)
        ensures
            r == self@.status,
    {
        self.status
    }

    pub fn headers(&self) -> (r: &Vec<(Vec<u8>, Vec<u8>)>)
        ensures
            r.deep_view() == self@.headers,
    {
        &self.headers
    }

    pub fn body(&self) -> (r: &Vec<u8>)
        ensures
            r@ == self@.body,
    {
        &self.body
    }
}

/// The outgoing side of one connection, as the transport layer sees it: the responses
/// written on it, in order.
pub struct ResponseSink {
    written: Vec<Response>,
}

impl View for ResponseSink {
    type V = Seq<ResponseView>;

    closed spec fn view(&self) -> Seq<ResponseView> {
        self.written@.map_values(|r: Response| r@)
    }
}

impl ResponseSink {
    pub fn new() -> (r: ResponseSink)
        ensures
            r@ == Seq::<ResponseView>::empty(),
    {
        let r = ResponseSink { written: Vec::new() };
        assert(r@ =~= Seq::<ResponseView>::empty());
        r
    }

    /// Writes `r` after what was written before.
    pub fn write(&mut self, r: Response)
        ensures
            final(self)@ == old(self)@.push(r@),
    {
        self.written.push(r);
        assert(self@ =~= old(self)@.push(r@));
    }

    /// The responses written so far, in order.
    pub fn written(&self) -> (r: &Vec<Response>)
        ensures
            r@.map_values(|x: Response| x@) == self@,
    {
        &self.written
    }

    /// Hands over the responses written so far, in order.
    pub fn into_written(self) -> (r: Vec<Response>)
        ensures
            r@.map_values(|x: Response| x@) == self@,
    {
        self.written
    }
}

/// The fixed text of the body sent when a request could not be served.
pub open spec fn failure_body() -> Seq<u8> {
    seq![73u8, 110, 116, 101, 114, 110, 97, 108, 32, 83, 101, 114, 118, 101, 114, 32, 69, 114,
        114, 111, 114]
}

/// The response sent when a request could not be served: status 500, no header fields,
/// and the body "Internal Server Error".
pub open spec fn failure_response() -> ResponseView {
    ResponseView { status: 500, headers: seq![], body: failure_body() }
}

} // verus!
