//! The key broker client behind the key management interface.

use crate::resource::ResourceUri;
use crate::text;
use crate::timeout;
use crate::timeout::{NonZeroSeconds, RequestTimeout};
use crate::token;
use vstd::prelude::*;
use vstd::string::*;

verus! {

pub const AA_TOKEN_REQUEST_TIMEOUT_SECS_ENV: &'static str = "AA_TOKEN_REQUEST_TIMEOUT_SECS";

/// Why a key broker client does not do its work.
pub enum KmsError {
    KbsClientError(String),
}

/// How the key broker is reached.
pub struct AaKbcParams {
    /// The name of the client.
    pub kbc: String,
    /// The address of the key broker.
    pub uri: String,
}

/// A key broker client that was chosen.
pub enum KbcClient {
    /// The client of a remote key broker.
    Cc { uri: String, request_timeout: RequestTimeout },
    /// The client that reads resources from the local file system.
    OfflineFs,
}

/// What is said of a client that is not known.
pub open spec fn unknown_kbc_text(kbc: Seq<char>) -> Seq<char> {
    "unknown kbc name "@ + kbc
        + ", only support `cc_kbc`(feature `kbs`) and `offline_fs_kbc`."@
}

/// Whether `r` is the timeout that reading the seconds came to, or the error that
/// says why they could not be read.
pub open spec fn is_token_request_timeout(
    seconds: Result<u32, Seq<char>>,
    r: Result<RequestTimeout, KmsError>,
) -> bool {
    match seconds {
        Ok(n) => r matches Ok(timeout) && timeout@ == n * timeout::NANOS_PER_SEC,
        Err(cause) => r matches Err(KmsError::KbsClientError(message)) && message@ == "invalid "@
            + AA_TOKEN_REQUEST_TIMEOUT_SECS_ENV@ + ": "@ + cause,
    }
}

/// What reading a text as a count of seconds comes to.
pub open spec fn read_seconds(raw: Seq<char>) -> Result<u32, Seq<char>> {
    match timeout::nonzero_u32(raw) {
        Some(n) => Ok(n),
        None => Err(timeout::nonzero_u32_error(raw)),
    }
}

/// The timeout of a token request, given what reading the seconds came to.
pub fn token_request_timeout_of(seconds: Result<NonZeroSeconds, String>) -> (r: Result<
    RequestTimeout,
    KmsError,
>)
    ensures
        is_token_request_timeout(
            match seconds {
                Ok(n) => Ok(n@),
                Err(e) => Err(e@),
            },
            r,
        ),
{
    match seconds {
        Ok(n) => Ok(RequestTimeout::from_secs(n.get() as u64)),
        Err(e) => {
            let mut message = text::joined("invalid ", AA_TOKEN_REQUEST_TIMEOUT_SECS_ENV);
            message.append(": ");
            message.append(e.as_str());
            Err(KmsError::KbsClientError(message))
        },
    }
}

/// The timeout of a token request: the usual one, unless another is set.
pub fn aa_token_request_timeout(raw: Option<&str>) -> (r: Result<RequestTimeout, KmsError>)
    ensures
        match raw {
            None => r matches Ok(timeout) && timeout@
                == token::DEFAULT_AA_TOKEN_REQUEST_TIMEOUT_SECS * timeout::NANOS_PER_SEC,
            Some(raw) => is_token_request_timeout(read_seconds(raw@), r),
        },
{
    match raw {
        None => Ok(token::default_token_request_timeout()),
        Some(raw) => token_request_timeout_of(timeout::parse_nonzero_seconds(raw)),
    }
}

impl KbcClient {
    /// Chooses the client that the parameters name. `params` is what reading them
    /// came to, `kbs_feature` tells whether the client of a remote key broker is
    /// there, and `timeout` is what the environment sets, which is looked at for
    /// that client only.
    pub fn new(
        params: Result<AaKbcParams, String>,
        kbs_feature: bool,
        timeout: Option<&str>,
    ) -> (r: Result<Self, KmsError>)
        ensures
            match params {
                Err(cause) => r matches Err(KmsError::KbsClientError(message)) && message@
                    == "Failed to parse aa_kbc_params: "@ + cause@,
                Ok(p) => if p.kbc@ == "cc_kbc"@ && kbs_feature {
                    match timeout {
                        None => r matches Ok(KbcClient::Cc { uri, request_timeout }) && uri@
                            == p.uri@ && request_timeout@
                            == token::DEFAULT_AA_TOKEN_REQUEST_TIMEOUT_SECS
                            * timeout::NANOS_PER_SEC,
                        Some(raw) => match r {
                            Ok(KbcClient::Cc { uri, request_timeout }) => uri@ == p.uri@
                                && is_token_request_timeout(
                                read_seconds(raw@),
                                Ok(request_timeout),
                            ),
                            Ok(KbcClient::OfflineFs) => false,
                            Err(e) => is_token_request_timeout(read_seconds(raw@), Err(e)),
                        },
                    }
                } else if p.kbc@ == "offline_fs_kbc"@ {
                    r matches Ok(KbcClient::OfflineFs)
                } else {
                    r matches Err(KmsError::KbsClientError(message)) && message@
                        == unknown_kbc_text(p.kbc@)
                },
            },
    {
        let params = match params {
            Ok(p) => p,
            Err(cause) => {
                return Err(
                    KmsError::KbsClientError(
                        text::joined("Failed to parse aa_kbc_params: ", cause.as_str()),
                    ),
                );
            },
        };
        if kbs_feature && text::same_text(params.kbc.as_str(), "cc_kbc") {
            match aa_token_request_timeout(timeout) {
                Ok(request_timeout) => Ok(KbcClient::Cc { uri: params.uri, request_timeout }),
                Err(e) => Err(e),
            }
        } else if text::same_text(params.kbc.as_str(), "offline_fs_kbc") {
            Ok(KbcClient::OfflineFs)
        } else {
            let mut message = text::joined("unknown kbc name ", params.kbc.as_str());
            message.append(", only support `cc_kbc`(feature `kbs`) and `offline_fs_kbc`.");
            Err(KmsError::KbsClientError(message))
        }
    }

    /// The resource to ask the client for: that which `name` names. `resource` is
    /// what reading `name` as a resource URI came to.
    pub fn get_secret(&self, name: &str, resource: Option<ResourceUri>) -> (r: Result<
        ResourceUri,
        KmsError,
    >)
        ensures
            match resource {
                Some(uri) => r == Ok::<ResourceUri, KmsError>(uri),
                None => r matches Err(KmsError::KbsClientError(message)) && message@
                    == "illegal kbs resource uri: "@ + name@,
            },
    {
        match resource {
            Some(uri) => Ok(uri),
            None => Err(
                KmsError::KbsClientError(text::joined("illegal kbs resource uri: ", name)),
            ),
        }
    }
}

/// A timeout that the environment sets is the one that token requests have, for every
/// number of seconds; without one it is fifty seconds, and what is no number of seconds
/// is refused with the name of the variable and the cause.
pub proof fn law_token_timeout_is_what_was_set(
    n: nat,
    raw: Seq<char>,
    r: Result<RequestTimeout, KmsError>,
)
    ensures
        0 < n <= u32::MAX && is_token_request_timeout(read_seconds(timeout::numeral(n)), r) ==> (
        r matches Ok(t) && t@ == n * 1_000_000_000),
        timeout::nonzero_u32(raw) is None && is_token_request_timeout(read_seconds(raw), r) ==> (
        r matches Err(KmsError::KbsClientError(message)) && message@
            == "invalid "@ + "AA_TOKEN_REQUEST_TIMEOUT_SECS"@ + ": "@ + timeout::nonzero_u32_error(
            raw,
        )),
        token::DEFAULT_AA_TOKEN_REQUEST_TIMEOUT_SECS == 50,
        timeout::NANOS_PER_SEC == 1_000_000_000,
{
    timeout::law_numeral_is_read_back(n);
}

/// What is said of a client that is not known names it, whatever it is called.
pub proof fn law_unknown_client_is_named(kbc: Seq<char>)
    ensures
        unknown_kbc_text(kbc).len() > kbc.len(),
        unknown_kbc_text(kbc).subrange(17, 17 + kbc.len() as int) == kbc,
        unknown_kbc_text(kbc).take(17) == "unknown kbc name "@,
        unknown_kbc_text(kbc).skip(17 + kbc.len() as int)
            == ", only support `cc_kbc`(feature `kbs`) and `offline_fs_kbc`."@,
{
    reveal_strlit("unknown kbc name ");
    reveal_strlit(", only support `cc_kbc`(feature `kbs`) and `offline_fs_kbc`.");
    assert("unknown kbc name "@.len() == 17);
    assert(unknown_kbc_text(kbc).subrange(17, 17 + kbc.len() as int) =~= kbc);
    assert(unknown_kbc_text(kbc).take(17) =~= "unknown kbc name "@);
    assert(unknown_kbc_text(kbc).skip(17 + kbc.len() as int)
        =~= ", only support `cc_kbc`(feature `kbs`) and `offline_fs_kbc`."@);
}

} // verus!
