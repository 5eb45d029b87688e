//! The client: an endpoint, and the start of a streaming operation.

use crate::codec::WebSocketIO;
use crate::connect::{fresh_retries, Establisher};
use vstd::prelude::*;

verus! {

/// Where to connect and what to send along: the address of the endpoint, the
/// additional headers of the handshake request and its subprotocols. The same
/// request is used for every connection attempt.
#[derive(Debug, Clone, PartialEq, Eq)]
pub struct ClientRequest {
    pub uri: String,
    pub headers: Vec<(String, String)>,
    pub subprotocols: Vec<String>,
}

/// A client for one endpoint.
pub struct WebSocketClient {
    request: ClientRequest,
}

impl WebSocketClient {
    /// The request that the client connects with.
    pub closed spec fn request(&self) -> ClientRequest {
        self.request
    }

    /// A client that connects with `request`.
    pub fn new(request: ClientRequest) -> (client: WebSocketClient)
        ensures
            client.request() == request,
    {
        WebSocketClient { request }
    }

    /// The request that the client connects with.
    pub fn get_request(&self) -> (request: &ClientRequest)
        ensures
            *request == self.request(),
    {
        &self.request
    }

    /// Begins a streaming operation over the codec `T`.
    ///
    /// The operation starts at its first connection attempt, with all delays
    /// still to come. The caller makes the attempt with the client's request
    /// and reports the outcome to the establisher that is returned.
    pub fn from_audio<T: WebSocketIO>(&self) -> (establisher: Establisher<T>)
        ensures
            establisher.attempt() == 1,
            establisher.retries() == fresh_retries(),
    {
        Establisher::new()
    }
}

} // verus!
