//! The client through which an image is given its resources.

use crate::cdh::{GetResourceRequest, ResourceMethod};
use crate::text;
use crate::timeout;
use crate::timeout::{RequestContext, RequestTimeout};
use vstd::prelude::*;
use vstd::string::*;

verus! {

pub const SOCKET_ADDR: &'static str = "unix:///run/confidential-containers/cdh.sock";

/// The timeout of a resource request that nothing else sets.
pub const DEFAULT_RESOURCE_PROVIDER_TIMEOUT_SECS: u64 = 50;

/// What is to be done to get a resource.
pub enum TtrpcAction {
    /// Connect to the data hub.
    Connect,
    /// Ask it for a resource.
    Request(GetResourceRequest),
}

/// The client of the data hub. It connects when it is first needed.
pub struct Ttrpc {
    connected: bool,
    timeout: RequestTimeout,
}

impl Default for Ttrpc {
    fn default() -> (r: Self)
        ensures
            !r.connected(),
            r.timeout() == DEFAULT_RESOURCE_PROVIDER_TIMEOUT_SECS * timeout::NANOS_PER_SEC,
    {
        Self::new(RequestTimeout::from_secs(DEFAULT_RESOURCE_PROVIDER_TIMEOUT_SECS))
    }
}

impl Ttrpc {
    pub closed spec fn connected(&self) -> bool {
        self.connected
    }

    /// The timeout of a request in nanoseconds.
    pub closed spec fn timeout(&self) -> nat {
        self.timeout@
    }

    pub fn new(timeout: RequestTimeout) -> (r: Self)
        ensures
            !r.connected(),
            r.timeout() == timeout@,
    {
        Ttrpc { connected: false, timeout }
    }

    /// The context of a request.
    pub fn request_context(&self) -> (r: RequestContext)
        ensures
            r.timeout_nano == timeout::low_64_bits(self.timeout() as int),
    {
        timeout::context_with_timeout(self.timeout)
    }

    /// The method that every request of this client is made to.
    pub fn method(&self) -> (r: ResourceMethod)
        ensures
            r == ResourceMethod::Private,
    {
        ResourceMethod::Private
    }

    /// What is to be done to get the resource at a path.
    pub fn get_resource(&self, resource_path: &str) -> (r: TtrpcAction)
        ensures
            if self.connected() {
                r matches TtrpcAction::Request(request) && {
                    &&& request.method == ResourceMethod::Private
                    &&& request.resource_path@ == resource_path@
                    &&& request.context.timeout_nano == timeout::low_64_bits(self.timeout() as int)
                }
            } else {
                r is Connect
            },
    {
        if self.connected {
            TtrpcAction::Request(
                GetResourceRequest {
                    method: self.method(),
                    resource_path: resource_path.to_owned(),
                    context: self.request_context(),
                },
            )
        } else {
            TtrpcAction::Connect
        }
    }

    /// Keeps the connection that was made. Where none could be made, the next request
    /// tries again.
    pub fn connect_result(&mut self, made: Result<(), String>) -> (r: Result<(), TtrpcError>)
        ensures
            final(self).connected() == (old(self).connected() || made is Ok),
            final(self).timeout() == old(self).timeout(),
            match made {
                Ok(_) => r is Ok,
                Err(cause) => r == Err::<(), TtrpcError>(TtrpcError::Connect { cause }),
            },
    {
        match made {
            Ok(_) => {
                self.connected = true;
                Ok(())
            },
            Err(cause) => Err(TtrpcError::Connect { cause }),
        }
    }

    /// The resource that the data hub handed out.
    pub fn request_result(reply: Result<Vec<u8>, String>) -> (r: Result<Vec<u8>, TtrpcError>)
        ensures
            match reply {
                Ok(resource) => r == Ok::<Vec<u8>, TtrpcError>(resource),
                Err(cause) => r == Err::<Vec<u8>, TtrpcError>(TtrpcError::Request { cause }),
            },
    {
        match reply {
            Ok(resource) => Ok(resource),
            Err(cause) => Err(TtrpcError::Request { cause }),
        }
    }
}

/// Why there is no resource.
pub enum TtrpcError {
    /// The data hub could not be reached.
    Connect { cause: String },
    /// The data hub did not hand the resource out.
    Request { cause: String },
}

/// The texts of an error and of its cause, the outermost first.
pub open spec fn ttrpc_error_chain(e: TtrpcError) -> Seq<Seq<char>> {
    match e {
        TtrpcError::Connect { cause } => seq![cause@],
        TtrpcError::Request { cause } => seq!["ttrpc request error"@, cause@],
    }
}

impl TtrpcError {
    /// The texts of the error and of its cause, the outermost first.
    pub fn chain(&self) -> (r: Vec<String>)
        ensures
            text::texts(r@) == ttrpc_error_chain(*self),
    {
        match self {
            TtrpcError::Connect { cause } => text::one_text(cause.as_str()),
            TtrpcError::Request { cause } => {
                let mut r = text::one_text("ttrpc request error");
                text::add_text(&mut r, cause.as_str());
                assert(text::texts(r@) =~= ttrpc_error_chain(*self));
                r
            },
        }
    }
}

/// The cause of an error is kept whole at the bottom of its texts; the client has its
/// usual socket and timeout.
pub proof fn law_cause_is_kept(e: TtrpcError)
    ensures
        match e {
            TtrpcError::Connect { cause } => ttrpc_error_chain(e) == seq![cause@],
            TtrpcError::Request { cause } => ttrpc_error_chain(e).last() == cause@
                && ttrpc_error_chain(e)[0] == "ttrpc request error"@ && ttrpc_error_chain(e).len()
                == 2,
        },
        DEFAULT_RESOURCE_PROVIDER_TIMEOUT_SECS == 50,
        SOCKET_ADDR@ == "unix:///run/confidential-containers/cdh.sock"@,
{
}

} // verus!
