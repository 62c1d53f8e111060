//! The client of the data hub in the REST server.

use crate::text;
use crate::timeout;
use crate::timeout::{RequestContext, RequestTimeout};
use vstd::prelude::*;
use vstd::string::*;

verus! {

/// ROOT path for Confidential Data Hub API
pub const CDH_ROOT: &'static str = "/cdh";

/// URL for querying CDH get resource API
pub const CDH_RESOURCE_URL: &'static str = "/resource";

pub const KBS_PREFIX: &'static str = "kbs://";

/// The methods by which the data hub hands resources out.
#[derive(Clone, Copy, PartialEq, Eq, Debug, Structural)]
pub enum ResourceMethod {
    /// `get_public_resource`, for workloads: it stands behind the guard.
    Public,
    /// `get_resource`, for the guest itself: it hands out every resource.
    Private,
}

/// A request for a resource, and the method that it is made to.
pub struct GetResourceRequest {
    pub method: ResourceMethod,
    pub resource_path: String,
    pub context: RequestContext,
}

/// Where the data hub listens, and how long a request to it may take.
pub struct CDHClient {
    cdh_addr: String,
    request_timeout: RequestTimeout,
}

impl CDHClient {
    pub closed spec fn addr(&self) -> Seq<char> {
        self.cdh_addr@
    }

    /// The timeout of a request in nanoseconds.
    pub closed spec fn timeout(&self) -> nat {
        self.request_timeout@
    }

    pub fn new(cdh_addr: &str, request_timeout: RequestTimeout) -> (r: Self)
        ensures
            r.addr() == cdh_addr@,
            r.timeout() == request_timeout@,
    {
        CDHClient { cdh_addr: cdh_addr.to_owned(), request_timeout }
    }

    /// The address to connect to.
    pub fn cdh_addr(&self) -> (r: &str)
        ensures
            r@ == self.addr(),
    {
        self.cdh_addr.as_str()
    }

    /// The method that every request of this client is made to.
    pub fn method(&self) -> (r: ResourceMethod)
        ensures
            r == ResourceMethod::Public,
    {
        ResourceMethod::Public
    }

    /// The request for the resource at a path: its URI, and the timeout that was
    /// chosen for the client. A repeated attempt makes the same request.
    pub fn get_resource(&self, resource_path: &str) -> (r: GetResourceRequest)
        ensures
            r.method == ResourceMethod::Public,
            r.resource_path@ == KBS_PREFIX@ + resource_path@,
            r.context.timeout_nano == timeout::low_64_bits(self.timeout() as int),
    {
        GetResourceRequest {
            method: self.method(),
            resource_path: text::joined(KBS_PREFIX, resource_path),
            context: request_context(self.request_timeout),
        }
    }
}

/// The context of a request with the given timeout.
pub fn request_context(timeout: RequestTimeout) -> (r: RequestContext)
    ensures
        r.timeout_nano == timeout::low_64_bits(timeout@ as int),
{
    timeout::context_with_timeout(timeout)
}

/// The services that the REST server is asked to offer.
#[derive(Clone, Copy, PartialEq, Eq, Debug, Structural)]
pub struct Features {
    /// Whether it reaches the attestation agent.
    pub attestation: bool,
    /// Whether it reaches the data hub.
    pub resource: bool,
}

/// What a text asks for.
pub open spec fn features_of(text: Seq<char>) -> Option<Features> {
    if text == "resource"@ {
        Some(Features { attestation: false, resource: true })
    } else if text == "attestation"@ {
        Some(Features { attestation: true, resource: false })
    } else if text == "all"@ {
        Some(Features { attestation: true, resource: true })
    } else {
        None
    }
}

/// Reads which services are asked for.
pub fn parse_features(features: &str) -> (r: Option<Features>)
    ensures
        r == features_of(features@),
{
    if text::same_text(features, "resource") {
        Some(Features { attestation: false, resource: true })
    } else if text::same_text(features, "attestation") {
        Some(Features { attestation: true, resource: false })
    } else if text::same_text(features, "all") {
        Some(Features { attestation: true, resource: true })
    } else {
        None
    }
}

/// Everything is what either of the two asks for, and no other text asks for anything.
pub proof fn law_features_are_asked_for_by_name(text: Seq<char>)
    ensures
        features_of(text) is Some <==> text == "resource"@ || text == "attestation"@ || text
            == "all"@,
        features_of(text) matches Some(f) ==> {
            &&& f.resource <==> text == "resource"@ || text == "all"@
            &&& f.attestation <==> text == "attestation"@ || text == "all"@
        },
        KBS_PREFIX@ == "kbs://"@,
        CDH_ROOT@ == "/cdh"@,
        CDH_RESOURCE_URL@ == "/resource"@,
{
    reveal_strlit("resource");
    reveal_strlit("attestation");
    reveal_strlit("all");
    assert("resource"@.len() == 8 && "attestation"@.len() == 11 && "all"@.len() == 3);
}

} // verus!
