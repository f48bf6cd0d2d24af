//! A service that sends through a pluggable request client. `Service<C>` picks
//! its client at compile time; `Service<AnyRequestClient>` picks it at run time.

use vstd::prelude::*;

verus! {

/// How a client retries and how long it waits.
#[derive(Clone, Copy, Debug, PartialEq, Eq, Structural)]
pub struct Configuration {
    pub retry: u32,
    pub timeout: u32,
}

/// A client that sends requests; `send` returns the line it announces.
pub trait RequestClient {
    /// The line the client announces when it sends.
    spec fn announcement(&self) -> Seq<char>;

    fn send(&self) -> (r: &'static str)
        ensures
            r@ == self.announcement(),
    ;
}

/// A client that sends by gRPC.
#[derive(Clone, Copy, Debug, PartialEq, Eq, Structural)]
pub struct GrpcRequestClient {
    pub config: Configuration,
}

/// A client that sends by HTTP.
#[derive(Clone, Copy, Debug, PartialEq, Eq, Structural)]
pub struct HttpRequestClient {
    pub config: Configuration,
}

impl RequestClient for GrpcRequestClient {
    open spec fn announcement(&self) -> Seq<char> {
        "Sending request by gRPC"@
    }

    fn send(&self) -> (r: &'static str) {
        "Sending request by gRPC"
    }
}

impl RequestClient for HttpRequestClient {
    open spec fn announcement(&self) -> Seq<char> {
        "Sending request by HTTP"@
    }

    fn send(&self) -> (r: &'static str) {
        "Sending request by HTTP"
    }
}

/// Either client, chosen at run time.
#[derive(Clone, Copy, Debug, PartialEq, Eq, Structural)]
pub enum AnyRequestClient {
    Grpc(GrpcRequestClient),
    Http(HttpRequestClient),
}

impl RequestClient for AnyRequestClient {
    open spec fn announcement(&self) -> Seq<char> {
        match self {
            AnyRequestClient::Grpc(c) => c.announcement(),
            AnyRequestClient::Http(c) => c.announcement(),
        }
    }

    fn send(&self) -> (r: &'static str) {
        match self {
            AnyRequestClient::Grpc(c) => c.send(),
            AnyRequestClient::Http(c) => c.send(),
        }
    }
}

/// A service that sends through its client.
pub struct Service<C: RequestClient> {
    pub client: C,
}

impl<C: RequestClient> Service<C> {
    /// Sends one request through the client; returns the client's announcement.
    pub fn call(&self) -> (r: &'static str)
        ensures
            r@ == self.client.announcement(),
    {
        self.client.send()
    }
}

} // verus!
