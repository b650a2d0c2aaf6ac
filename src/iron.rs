//! The server facade, and the dispatch core that answers each request with its handler.
use vstd::prelude::*;
use std::sync::Arc;
use crate::adapt::{adapt_error, adapts, write_failure, AdaptError};
use crate::handler::{Handler, HandlerError};
use crate::message::{failure_response, HttpRequest, Request, Response, ResponseSink};

verus! {

/// An IP address, version 4 or 6, as its octets or its 16-bit groups.
#[derive(Debug, Clone, Copy, PartialEq, Eq)]
pub enum IpAddress {
    V4([u8; 4]),
    V6([u16; 8]),
}

/// An IP address and a port.
#[derive(Debug, Clone, Copy, PartialEq, Eq)]
pub struct SocketAddress {
    pub ip: IpAddress,
    pub port: u16,
}

/// What the transport layer needs to know to serve: where to listen.
#[derive(Debug, Clone, Copy)]
pub struct Config {
    pub bind_address: SocketAddress,
}

/// Why a request was answered with the failure response, for the transport layer to log.
#[derive(Debug)]
pub enum Failure {
    /// The request from the transport was malformed; the handler was not called.
    Adapt(AdaptError),
    /// The handler failed on this request.
    Handler(Request, HandlerError),
}

/// A server around one handler.
pub struct Iron<H> {
    pub handler: H,
}

/// The dispatch core: the handler, shared by every connection being served, and the
/// address to listen on.
pub struct IronListener<H> {
    handler: Arc<H>,
    ip: IpAddress,
    port: u16,
}

impl<H> IronListener<H> {
    /// The handler this listener dispatches to.
    pub closed spec fn handler(&self) -> H {
        *self.handler
    }

    /// The address this listener is to listen on.
    pub closed spec fn address(&self) -> SocketAddress {
        SocketAddress { ip: self.ip, port: self.port }
    }
}

/// A dispatch core holds nothing but its handler and its address: two made from the same
/// handler for the same address are the same value, so that a server started again around
/// the same handler answers as the one before it did.
pub proof fn lemma_listener_determined<H>(a: IronListener<H>, b: IronListener<H>)
    requires
        a.handler() == b.handler(),
        a.address() == b.address(),
    ensures
        a == b,
{
}

impl<H: Handler> Iron<H> {
    /// A server around `handler`.
    pub fn around(handler: H) -> (r: Iron<H>)
        ensures
            r.handler == handler,
    {
        Iron { handler }
    }

    /// The dispatch core for this server, to listen on `ip` and `port`: it holds the
    /// handler and the address, and nothing else.
    pub fn listener(self, ip: IpAddress, port: u16) -> (r: IronListener<H>)
        ensures
            r.handler() == self.handler,
            r.address() == (SocketAddress { ip, port }),
    {
        IronListener { handler: Arc::new(self.handler), ip, port }
    }
}

/// Writes the answer to `req` from the handler's outcome: the handler's response as it is,
/// or the failure response where the handler failed.
pub fn respond(
    req: Request,
    outcome: Result<Response, HandlerError>,
    sink: &mut ResponseSink,
) -> (r: Option<Failure>)
    ensures
        match outcome {
            Ok(resp) => {
                &&& final(sink)@ == old(sink)@.push(resp@)
                &&& r is None
            },
            Err(e) => {
                &&& final(sink)@ == old(sink)@.push(failure_response())
                &&& r == Some(Failure::Handler(req, e))
            },
        },
{
    match outcome {
        Ok(resp) => {
            resp.write_back(sink);
            None
        },
        Err(e) => {
            write_failure(sink);
            Some(Failure::Handler(req, e))
        },
    }
}

impl<H: Handler> IronListener<H> {
    pub fn get_config(&self) -> (r: Config)
        ensures
            r.bind_address == self.address(),
    {
        Config { bind_address: SocketAddress { ip: self.ip, port: self.port } }
    }

    /// Answers one request: checks it, hands it to the handler, and writes the handler's
    /// response. Exactly one response is written, whatever happens: where the request is
    /// malformed (the handler is then not called) or where the handler fails, it is the
    /// failure response, and what went wrong is returned; else it is the handler's response,
    /// as the handler made it.
    pub fn handle_request(&self, http_req: HttpRequest, http_res: &mut ResponseSink) -> (r:
        Option<Failure>)
        ensures
            final(http_res)@.len() == old(http_res)@.len() + 1,
            final(http_res)@ == old(http_res)@.push(final(http_res)@.last()),
            !adapts(http_req@) ==> final(http_res)@.last() == failure_response() && r == Some(
                Failure::Adapt(adapt_error(http_req@)),
            ),
            adapts(http_req@) ==> !(r matches Some(Failure::Adapt(_))),
            r is None ==> adapts(http_req@),
            r is Some ==> final(http_res)@.last() == failure_response(),
    {
        let mut req = match Request::from_http(http_req) {
            Ok(req) => req,
            Err(e) => {
                write_failure(http_res);
                return Some(Failure::Adapt(e));
            },
        };
        let outcome = self.handler.call(&mut req);
        respond(req, outcome, http_res)
    }
}

impl<H: Handler> Clone for IronListener<H> {
    /// Another handle on the same handler, with the same address.
    fn clone(&self) -> (r: IronListener<H>)
        ensures
            r.handler() == self.handler(),
            r.address() == self.address(),
    {
        IronListener { handler: self.handler.clone(), ip: self.ip, port: self.port }
    }
}

} // verus!
