//! The token provider that asks the attestation agent.

use crate::sequence::{Sequence, SequenceView};
use crate::text;
use crate::timeout;
use crate::timeout::{RequestContext, RequestTimeout};
use vstd::prelude::*;
use vstd::string::*;

verus! {

pub const AA_SOCKET_FILE: &'static str =
    "unix:///run/confidential-containers/attestation-agent/attestation-agent.sock";

pub const TOKEN_TYPE: &'static str = "kbs";

/// The timeout of a token request that nothing else sets.
pub const DEFAULT_AA_TOKEN_REQUEST_TIMEOUT_SECS: u64 = 50;

/// Why there is no token.
pub enum TokenError {
    AATokenProvider(String),
}

/// A request for a token.
pub struct GetTokenRequest {
    pub token_type: String,
    pub context: RequestContext,
}

/// Where the attestation agent listens, and how long a request to it may take.
pub struct AATokenProvider {
    aa_socket: String,
    request_timeout: RequestTimeout,
}

impl AATokenProvider {
    pub closed spec fn socket(&self) -> Seq<char> {
        self.aa_socket@
    }

    /// The timeout of a request in nanoseconds.
    pub closed spec fn timeout(&self) -> nat {
        self.request_timeout@
    }

    /// The provider at the usual socket, with the usual timeout.
    pub fn new() -> (r: Self)
        ensures
            r.socket() == AA_SOCKET_FILE@,
            r.timeout() == DEFAULT_AA_TOKEN_REQUEST_TIMEOUT_SECS * timeout::NANOS_PER_SEC,
    {
        Self::new_with_socket(AA_SOCKET_FILE)
    }

    /// The provider at a socket, with the usual timeout.
    pub fn new_with_socket(aa_socket: &str) -> (r: Self)
        ensures
            r.socket() == aa_socket@,
            r.timeout() == DEFAULT_AA_TOKEN_REQUEST_TIMEOUT_SECS * timeout::NANOS_PER_SEC,
    {
        Self::new_with_socket_and_timeout(aa_socket, default_token_request_timeout())
    }

    pub fn new_with_socket_and_timeout(aa_socket: &str, request_timeout: RequestTimeout) -> (r:
        Self)
        ensures
            r.socket() == aa_socket@,
            r.timeout() == request_timeout@,
    {
        AATokenProvider { aa_socket: aa_socket.to_owned(), request_timeout }
    }

    /// The address to connect to.
    pub fn aa_socket(&self) -> (r: &str)
        ensures
            r@ == self.socket(),
    {
        self.aa_socket.as_str()
    }

    /// The request for a token of the key broker.
    pub fn get_token(&self) -> (r: GetTokenRequest)
        ensures
            r.token_type@ == TOKEN_TYPE@,
            r.context.timeout_nano == timeout::low_64_bits(self.timeout() as int),
    {
        GetTokenRequest {
            token_type: TOKEN_TYPE.to_owned(),
            context: request_context(self.request_timeout),
        }
    }
}

/// The timeout of a token request that nothing else sets.
pub fn default_token_request_timeout() -> (r: RequestTimeout)
    ensures
        r@ == DEFAULT_AA_TOKEN_REQUEST_TIMEOUT_SECS * timeout::NANOS_PER_SEC,
{
    RequestTimeout::from_secs(DEFAULT_AA_TOKEN_REQUEST_TIMEOUT_SECS)
}

/// The context of a request with the given timeout.
pub fn request_context(timeout: RequestTimeout) -> (r: RequestContext)
    ensures
        r.timeout_nano == timeout::low_64_bits(timeout@ as int),
{
    timeout::context_with_timeout(timeout)
}

/// One step on the way to a token.
#[derive(Clone, Copy, PartialEq, Eq, Debug, Structural)]
pub enum TokenStep {
    /// Connect to the attestation agent.
    Connect,
    /// Ask it for a token.
    Call,
    /// Read its reply: a token and a key pair, both as text.
    ReadReply,
    /// Read the token.
    ReadToken,
    /// Read the key pair.
    ReadKeyPair,
}

/// What the reply of the attestation agent holds.
pub struct TokenMessage {
    /// The token as text.
    pub token: String,
    /// The key pair in PEM form.
    pub tee_keypair: String,
}

/// Which text of the reply a step reads, where it reads one.
pub open spec fn text_read(step: TokenStep, message: TokenMessage) -> Option<Seq<char>> {
    match step {
        TokenStep::ReadToken => Some(message.token@),
        TokenStep::ReadKeyPair => Some(message.tee_keypair@),
        _ => None,
    }
}

impl TokenMessage {
    /// The text that a step reads, where it reads one.
    pub fn text_for(&self, step: TokenStep) -> (r: Option<&str>)
        ensures
            match text_read(step, *self) {
                Some(text) => r matches Some(s) && s@ == text,
                None => r is None,
            },
    {
        match step {
            TokenStep::ReadToken => Some(self.token.as_str()),
            TokenStep::ReadKeyPair => Some(self.tee_keypair.as_str()),
            _ => None,
        }
    }
}

/// The steps from a connected provider to a token.
pub open spec fn token_steps() -> Seq<TokenStep> {
    seq![TokenStep::Call, TokenStep::ReadReply, TokenStep::ReadToken, TokenStep::ReadKeyPair]
}

/// The steps from a connected provider to a token and its key pair.
pub fn get_token_steps() -> (r: Sequence<TokenStep>)
    ensures
        r@ == SequenceView::start(token_steps()),
{
    let mut steps: Vec<TokenStep> = Vec::new();
    steps.push(TokenStep::Call);
    steps.push(TokenStep::ReadReply);
    steps.push(TokenStep::ReadToken);
    steps.push(TokenStep::ReadKeyPair);
    assert(steps@ =~= token_steps());
    Sequence::new(steps)
}

/// What is said of a step that failed.
pub open spec fn token_step_text(step: TokenStep) -> Seq<char> {
    match step {
        TokenStep::Connect => "ttrpc connect failed "@,
        TokenStep::Call => "cal ttrpc failed: "@,
        TokenStep::ReadReply => "deserialize attestation-agent reply failed: "@,
        TokenStep::ReadToken => "deserialize token failed: "@,
        TokenStep::ReadKeyPair => "deserialize tee keypair failed: "@,
    }
}

/// The error of a step that failed with `cause`.
pub fn token_step_error(step: TokenStep, cause: &str) -> (r: TokenError)
    ensures
        r matches TokenError::AATokenProvider(message) && message@ == token_step_text(step)
            + cause@,
{
    let said = match step {
        TokenStep::Connect => "ttrpc connect failed ",
        TokenStep::Call => "cal ttrpc failed: ",
        TokenStep::ReadReply => "deserialize attestation-agent reply failed: ",
        TokenStep::ReadToken => "deserialize token failed: ",
        TokenStep::ReadKeyPair => "deserialize tee keypair failed: ",
    };
    TokenError::AATokenProvider(text::joined(said, cause))
}

/// A token comes from one call: the reply is read after it, and out of the reply first
/// the token and then the key pair. A provider is connected already, so that nothing
/// else is done.
pub proof fn law_token_is_read_out_of_the_reply(outcomes: Seq<bool>)
    requires
        forall|i: int| 0 <= i < outcomes.len() ==> outcomes[i],
    ensures
        ({
            let next = SequenceView::start(token_steps()).after_all(outcomes).next();
            &&& outcomes.len() == 0 ==> next == Some(TokenStep::Call)
            &&& outcomes.len() == 1 ==> next == Some(TokenStep::ReadReply)
            &&& outcomes.len() == 2 ==> next == Some(TokenStep::ReadToken)
            &&& outcomes.len() == 3 ==> next == Some(TokenStep::ReadKeyPair)
            &&& outcomes.len() >= 4 ==> next is None
        }),
{
    crate::sequence::law_steps_are_taken_in_turn(token_steps(), outcomes);
}

/// Each of the two texts of a reply is read whole, by the step that it is for and by no
/// other, whatever the other text is.
pub proof fn law_each_text_is_read_by_its_step(step: TokenStep, a: TokenMessage, b: TokenMessage)
    ensures
        text_read(TokenStep::ReadToken, a) == Some(a.token@),
        text_read(TokenStep::ReadKeyPair, a) == Some(a.tee_keypair@),
        a.token@ == b.token@ ==> text_read(TokenStep::ReadToken, a) == text_read(
            TokenStep::ReadToken,
            b,
        ),
        text_read(step, a) is Some <==> step == TokenStep::ReadToken || step
            == TokenStep::ReadKeyPair,
{
}

} // verus!
