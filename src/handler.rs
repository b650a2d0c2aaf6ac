//! The unit of application logic that the server runs for each request.
use vstd::prelude::*;
use crate::message::{Request, Response};

verus! {

/// Why a handler could not answer a request.
#[derive(Debug)]
pub struct HandlerError {
    pub message: String,
}

/// Application logic that turns a request into a response, or fails. One value serves
/// every connection, from as many threads at once as the transport layer runs: it is only
/// ever reached through `&self`, and it must not keep the request past the call.
pub trait Handler: Send + Sync {
    fn call(&self, req: &mut Request) -> Result<Response, HandlerError>;
}

} // verus!
