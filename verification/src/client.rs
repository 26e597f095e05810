use vstd::prelude::*;

verus! {

#[verifier::external_type_specification]
#[verifier::external_body]
#[verifier::reject_recursive_types(C)]
#[verifier::reject_recursive_types(B)]
pub struct ExHyperClient<C, B>(hyper::Client<C, B>);

#[verifier::external_type_specification]
#[verifier::external_body]
#[verifier::reject_recursive_types(R)]
pub struct ExHttpConnector<R>(hyper::client::HttpConnector<R>);

#[verifier::external_type_specification]
#[verifier::external_body]
pub struct ExGaiResolver(hyper::client::connect::dns::GaiResolver);

#[verifier::external_type_specification]
#[verifier::external_body]
pub struct ExHyperBody(hyper::Body);

/// Shared handle to the underlying asynchronous HTTP transport. Every
/// builder made from one handle shares the same connection pool; the value
/// is opaque here, and dispatching through it is the caller's asynchronous
/// work, outside this crate.
pub struct Transport {
    pub hyper: hyper::Client<hyper::client::HttpConnector, hyper::Body>,
}

impl Transport {
    pub fn new(transport: hyper::Client<hyper::client::HttpConnector, hyper::Body>) -> (r: Transport)
        ensures
            r.hyper == transport,
    {
        Transport { hyper: transport }
    }
}

/// Relies on `hyper::Client::clone`: the handle is cheaply cloneable and the
/// clone shares the same connection pool. Nothing further is claimed of the
/// opaque value.
#[verifier::external_body]
fn clone_transport(
    transport: &hyper::Client<hyper::client::HttpConnector, hyper::Body>,
) -> hyper::Client<hyper::client::HttpConnector, hyper::Body> {
    transport.clone()
}

impl Clone for Transport {
    fn clone(&self) -> Self {
        Transport { hyper: clone_transport(&self.hyper) }
    }
}

} // verus!
