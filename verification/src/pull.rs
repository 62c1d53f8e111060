//! The order in which an image is pulled and measured.

use crate::hub::{AaClient, Error, Hub};
use crate::text;
use crate::timeout;
use crate::timeout::RequestContext;
use vstd::prelude::*;
use vstd::string::*;

verus! {

/// How long the attestation agent may take to extend a measurement, in nanoseconds.
pub const EXTEND_RUNTIME_MEASUREMENT_TIMEOUT: i64 = 10_000_000_000;

/// What the attestation agent is asked to measure.
pub struct MeasurementEvent {
    pub domain: String,
    pub operation: String,
    pub content: String,
    pub context: RequestContext,
}

/// What the attestation agent says about a measurement.
#[derive(Clone, Copy, PartialEq, Eq, Debug, Structural)]
pub enum RuntimeMeasurementResult {
    Extended,
    NotSupported,
    NotEnabled,
}

/// The content of the event of a pulled image.
pub open spec fn pull_content(image_url: Seq<char>, digest: Seq<char>) -> Seq<char> {
    "{\"image\":\""@ + image_url + "\", \"digest\":\""@ + digest + "\"}"@
}

/// The event of a pulled image.
pub fn pull_event(image_url: &str, digest: &str) -> (r: MeasurementEvent)
    ensures
        r.domain@ == "github.com/confidential-containers"@,
        r.operation@ == "PullImage"@,
        r.content@ == pull_content(image_url@, digest@),
        r.context.timeout_nano == EXTEND_RUNTIME_MEASUREMENT_TIMEOUT,
{
    let mut content = text::joined("{\"image\":\"", image_url);
    content.append("\", \"digest\":\"");
    content.append(digest);
    content.append("\"}");
    MeasurementEvent {
        domain: "github.com/confidential-containers".to_owned(),
        operation: "PullImage".to_owned(),
        content,
        context: timeout::context_with_nanos(EXTEND_RUNTIME_MEASUREMENT_TIMEOUT),
    }
}

/// The path of the socket that an address names.
pub open spec fn socket_path(aa_socket: Seq<char>) -> Seq<char> {
    match text::after_prefix(aa_socket, "unix://"@) {
        Some(path) => path,
        None => aa_socket,
    }
}

/// The path whose existence tells whether there is an attestation agent.
pub fn aa_socket_path(aa_socket: &str) -> (r: &str)
    ensures
        r@ == socket_path(aa_socket@),
{
    match text::strip(aa_socket, "unix://") {
        Some(path) => path,
        None => aa_socket,
    }
}

/// One step of pulling an image.
#[derive(Clone, Copy, PartialEq, Eq, Debug, Structural)]
pub enum PullStep {
    /// Make the image client.
    MakeImageClient,
    /// Pull the image.
    Pull,
    /// Connect to the attestation agent, if there is one.
    ConnectAa,
    /// Have the event of the pull measured.
    Extend,
}

/// How a step ended.
pub enum PullReply {
    /// The client was made.
    Made,
    /// The image was pulled.
    Pulled { digest: String },
    /// There is no attestation agent.
    NoAgent,
    /// The attestation agent replied.
    Measured(RuntimeMeasurementResult),
    /// The attestation agent replied something that is not known.
    UnknownResult { cause: String },
    /// The step failed.
    Failed { cause: String },
}

/// Whether `reply` answers `step`.
pub open spec fn answers(step: PullStep, reply: PullReply) -> bool {
    match reply {
        PullReply::Failed { .. } => true,
        PullReply::Made => step == PullStep::MakeImageClient || step == PullStep::ConnectAa,
        PullReply::Pulled { .. } => step == PullStep::Pull,
        PullReply::NoAgent => step == PullStep::ConnectAa,
        PullReply::Measured(_) => step == PullStep::Extend,
        PullReply::UnknownResult { .. } => step == PullStep::Extend,
    }
}

fn is_answer(step: PullStep, reply: &PullReply) -> (r: bool)
    ensures
        r == answers(step, *reply),
{
    match reply {
        PullReply::Failed { .. } => true,
        PullReply::Made => step == PullStep::MakeImageClient || step == PullStep::ConnectAa,
        PullReply::Pulled { .. } => step == PullStep::Pull,
        PullReply::NoAgent => step == PullStep::ConnectAa,
        PullReply::Measured(_) => step == PullStep::Extend,
        PullReply::UnknownResult { .. } => step == PullStep::Extend,
    }
}

/// The step that comes after the pull, if any: nothing more is done where nothing
/// is measured, or where there is known to be no attestation agent.
pub open spec fn step_after_pull(measures: bool, aa_client: AaClient) -> Option<PullStep> {
    if !measures {
        None
    } else {
        match aa_client {
            AaClient::Unknown => Some(PullStep::ConnectAa),
            AaClient::Absent => None,
            AaClient::Connected => Some(PullStep::Extend),
        }
    }
}

/// How far a pull has got, and what the hub knows.
#[verifier::ext_equal]
pub struct PullView {
    pub step: Option<PullStep>,
    /// The digest of the manifest, once the image was pulled.
    pub digest: Option<Seq<char>>,
    /// Whether the pull has ended with an error.
    pub failed: bool,
    pub image_client: bool,
    pub aa_client: AaClient,
    pub measures: bool,
}

impl PullView {
    /// A pull before its first step: the image client is made where there is none.
    pub open spec fn start(image_client: bool, aa_client: AaClient, measures: bool) -> Self {
        PullView {
            step: Some(
                if image_client {
                    PullStep::Pull
                } else {
                    PullStep::MakeImageClient
                },
            ),
            digest: None,
            failed: false,
            image_client,
            aa_client,
            measures,
        }
    }

    /// The state after the step that is to be done now has ended. What is no answer
    /// to it changes nothing.
    pub open spec fn after(self, reply: PullReply) -> Self {
        match self.step {
            Some(step) if answers(step, reply) => match reply {
                PullReply::Made => if step == PullStep::MakeImageClient {
                    PullView { image_client: true, step: Some(PullStep::Pull), ..self }
                } else {
                    PullView {
                        aa_client: AaClient::Connected,
                        step: Some(PullStep::Extend),
                        ..self
                    }
                },
                PullReply::Pulled { digest } => PullView {
                    digest: Some(digest@),
                    step: step_after_pull(self.measures, self.aa_client),
                    ..self
                },
                PullReply::NoAgent => PullView { aa_client: AaClient::Absent, step: None, ..self },
                PullReply::Measured(_) => PullView { step: None, ..self },
                PullReply::UnknownResult { .. } => PullView { step: None, failed: true, ..self },
                PullReply::Failed { .. } => PullView { step: None, failed: true, ..self },
            },
            _ => self,
        }
    }

    /// The state after a number of replies.
    pub open spec fn after_all(self, replies: Seq<PullReply>) -> Self
        decreases replies.len(),
    {
        if replies.len() == 0 {
            self
        } else {
            self.after_all(replies.drop_last()).after(replies.last())
        }
    }
}

/// Whether `e` is the error of a step that failed.
pub open spec fn is_step_error(step: PullStep, reply: PullReply, e: Error) -> bool {
    match reply {
        PullReply::Failed { cause } => match step {
            PullStep::ConnectAa => e matches Error::AttestationAgentClientError { source }
                && source@ == "failed to connect to attestation agent: "@ + cause@,
            PullStep::Extend => e matches Error::AttestationAgentClientError { source } && source@
                == "failed to extend runtime measurement: "@ + cause@,
            _ => e == (Error::Image { source: cause }),
        },
        PullReply::UnknownResult { cause } => e matches Error::AttestationAgentClientError {
            source,
        } && source@ == "failed to get runtime measurement result: "@ + cause@,
        _ => false,
    }
}

/// An image that is being pulled.
pub struct ImagePull {
    image_url: String,
    bundle_path: String,
    digest: Option<String>,
    step: Option<PullStep>,
    error: Option<Error>,
}

impl ImagePull {
    pub closed spec fn url(&self) -> Seq<char> {
        self.image_url@
    }

    /// Where the image is unpacked.
    pub closed spec fn bundle(&self) -> Seq<char> {
        self.bundle_path@
    }

    /// The digest of the manifest, once the image was pulled.
    pub closed spec fn digest(&self) -> Option<Seq<char>> {
        match self.digest {
            Some(digest) => Some(digest@),
            None => None,
        }
    }

    /// The step that is to be done now.
    pub closed spec fn step(&self) -> Option<PullStep> {
        self.step
    }

    /// The error with which the pull has ended, if it has.
    pub closed spec fn error(&self) -> Option<Error> {
        self.error
    }

    /// The step that is to be done now, if there is one.
    pub fn next_step(&self) -> (r: Option<PullStep>)
        ensures
            r == self.step(),
    {
        self.step
    }

    pub fn image_url(&self) -> (r: &str)
        ensures
            r@ == self.url(),
    {
        self.image_url.as_str()
    }

    /// Where the image is unpacked.
    pub fn bundle_path(&self) -> (r: &str)
        ensures
            r@ == self.bundle(),
    {
        self.bundle_path.as_str()
    }

    /// What the attestation agent is asked to measure, once the image was pulled.
    pub fn event(&self) -> (r: Option<MeasurementEvent>)
        ensures
            match self.digest() {
                Some(digest) => r matches Some(event) && {
                    &&& event.domain@ == "github.com/confidential-containers"@
                    &&& event.operation@ == "PullImage"@
                    &&& event.content@ == pull_content(self.url(), digest)
                    &&& event.context.timeout_nano == EXTEND_RUNTIME_MEASUREMENT_TIMEOUT
                },
                None => r is None,
            },
    {
        match &self.digest {
            Some(digest) => Some(pull_event(self.image_url.as_str(), digest.as_str())),
            None => None,
        }
    }

    /// The digest of the manifest of the pulled image, or why there is none, once
    /// the pull has ended.
    pub fn finish(self) -> (r: Option<Result<String, Error>>)
        ensures
            match self.error() {
                Some(error) => r == Some(Err::<String, Error>(error)),
                None => match self.digest() {
                    Some(digest) if self.step() is None => r matches Some(Ok(d)) && d@ == digest,
                    _ => r is None,
                },
            },
    {
        match self.error {
            Some(error) => Some(Err(error)),
            None => match self.digest {
                Some(digest) => match self.step {
                    None => Some(Ok(digest)),
                    Some(_) => None,
                },
                None => None,
            },
        }
    }
}

impl Hub {
    /// How far a pull has got, and what the hub knows.
    pub open spec fn pull_view(&self, pull: ImagePull) -> PullView {
        PullView {
            step: pull.step(),
            digest: pull.digest(),
            failed: pull.error() is Some,
            image_client: self.has_image_client(),
            aa_client: self.aa_client(),
            measures: self.measures(),
        }
    }

    /// Starts to pull an image that is to be unpacked at a path.
    pub fn pull_image(&self, image_url: &str, bundle_path: &str) -> (r: ImagePull)
        ensures
            r.url() == image_url@,
            r.bundle() == bundle_path@,
            self.pull_view(r) == PullView::start(
                self.has_image_client(),
                self.aa_client(),
                self.measures(),
            ),
    {
        ImagePull {
            image_url: image_url.to_owned(),
            bundle_path: bundle_path.to_owned(),
            digest: None,
            step: Some(
                if self.image_client_made() {
                    PullStep::Pull
                } else {
                    PullStep::MakeImageClient
                },
            ),
            error: None,
        }
    }

    /// Goes on with a pull after the step that was to be done has ended. What was
    /// found out about the clients is kept for the next pull.
    pub fn report_pull(&mut self, pull: &mut ImagePull, reply: PullReply)
        ensures
            final(pull).url() == old(pull).url(),
            final(pull).bundle() == old(pull).bundle(),
            final(self).protected() == old(self).protected(),
            final(self).entries() == old(self).entries(),
            final(self).connected() == old(self).connected(),
            final(self).pull_view(*final(pull)) == old(self).pull_view(*old(pull)).after(reply),
            match old(pull).step() {
                Some(step) if answers(step, reply) && (reply is Failed || reply is UnknownResult) =>
                    final(pull).error() matches Some(e) && is_step_error(step, reply, e),
                _ => final(pull).error() == old(pull).error(),
            },
    {
        let step = match pull.step {
            Some(step) => step,
            None => {
                return;
            },
        };
        if !is_answer(step, &reply) {
            return;
        }
        match reply {
            PullReply::Made => {
                if step == PullStep::MakeImageClient {
                    self.keep_image_client();
                    pull.step = Some(PullStep::Pull);
                } else {
                    self.keep_aa_client(AaClient::Connected);
                    pull.step = Some(PullStep::Extend);
                }
            },
            PullReply::Pulled { digest } => {
                pull.digest = Some(digest);
                pull.step = self.after_pull();
            },
            PullReply::NoAgent => {
                self.keep_aa_client(AaClient::Absent);
                pull.step = None;
            },
            PullReply::Measured(_) => {
                pull.step = None;
            },
            PullReply::UnknownResult { cause } => {
                pull.step = None;
                pull.error = Some(
                    Error::AttestationAgentClientError {
                        source: text::joined(
                            "failed to get runtime measurement result: ",
                            cause.as_str(),
                        ),
                    },
                );
            },
            PullReply::Failed { cause } => {
                pull.step = None;
                pull.error = Some(
                    match step {
                        PullStep::ConnectAa => Error::AttestationAgentClientError {
                            source: text::joined(
                                "failed to connect to attestation agent: ",
                                cause.as_str(),
                            ),
                        },
                        PullStep::Extend => Error::AttestationAgentClientError {
                            source: text::joined(
                                "failed to extend runtime measurement: ",
                                cause.as_str(),
                            ),
                        },
                        _ => Error::Image { source: cause },
                    },
                );
            },
        }
    }

    /// The step that comes after the pull, if any.
    fn after_pull(&self) -> (r: Option<PullStep>)
        ensures
            r == step_after_pull(self.measures(), self.aa_client()),
    {
        if !self.is_measuring() {
            return None;
        }
        match self.known_aa_client() {
            AaClient::Unknown => Some(PullStep::ConnectAa),
            AaClient::Absent => None,
            AaClient::Connected => Some(PullStep::Extend),
        }
    }
}

/// The reply says that an image with this digest was pulled.
pub open spec fn hands_out(reply: PullReply, digest: Seq<char>) -> bool {
    reply matches PullReply::Pulled { digest: d } && d@ == digest
}

/// What holds of a pull at every point.
proof fn lemma_pull(start: PullView, replies: Seq<PullReply>)
    requires
        start == PullView::start(start.image_client, start.aa_client, start.measures),
    ensures
        ({
            let state = start.after_all(replies);
            &&& state.measures == start.measures
            &&& state.failed ==> state.step is None
            &&& match state.step {
                Some(PullStep::MakeImageClient) => state.digest is None && !start.image_client,
                Some(PullStep::Pull) => state.digest is None && state.image_client,
                Some(PullStep::ConnectAa) => state.digest is Some && state.measures
                    && start.aa_client == AaClient::Unknown,
                Some(PullStep::Extend) => state.digest is Some && state.measures && state.aa_client
                    == AaClient::Connected,
                None => state.failed || state.digest is Some,
            }
            &&& state.digest is Some ==> exists|i: int|
                0 <= i < replies.len() && #[trigger] hands_out(replies[i], state.digest->0)
            &&& state.step == Some(PullStep::MakeImageClient) || state.step == Some(PullStep::Pull)
                ==> state.aa_client == start.aa_client
        }),
    decreases replies.len(),
{
    if replies.len() > 0 {
        let before = replies.drop_last();
        lemma_pull(start, before);
        let prior = start.after_all(before);
        let state = start.after_all(replies);
        let last = replies.len() - 1;
        assert(replies[last] == replies.last());
        assert(state == prior.after(replies.last()));
        if state.digest is Some {
            if state.digest == prior.digest {
                let i = choose|i: int|
                    0 <= i < before.len() && #[trigger] hands_out(before[i], prior.digest->0);
                assert(replies[i] == before[i]);
                assert(hands_out(replies[i], state.digest->0));
            } else {
                assert(hands_out(replies[last], state.digest->0));
            }
        }
    }
}

/// A pull that ends without an error hands out the digest of the image that was
/// pulled, whatever the attestation agent said and whether or not there is one.
pub proof fn law_successful_pull_has_the_digest(start: PullView, replies: Seq<PullReply>)
    requires
        start == PullView::start(start.image_client, start.aa_client, start.measures),
        start.after_all(replies).step is None,
        !start.after_all(replies).failed,
    ensures
        start.after_all(replies).digest matches Some(digest) && exists|i: int|
            0 <= i < replies.len() && #[trigger] hands_out(replies[i], digest),
{
    lemma_pull(start, replies);
}

/// Nothing is measured before the image was pulled, nor without an attestation
/// agent, nor where measurements are off.
pub proof fn law_only_a_pulled_image_is_measured(start: PullView, replies: Seq<PullReply>)
    requires
        start == PullView::start(start.image_client, start.aa_client, start.measures),
        start.after_all(replies).step == Some(PullStep::Extend),
    ensures
        start.after_all(replies).digest is Some,
        start.after_all(replies).aa_client == AaClient::Connected,
        start.measures,
{
    lemma_pull(start, replies);
}

/// Clients are made once: a hub that has an image client makes no other, and one
/// that knows whether there is an attestation agent does not look for it again.
pub proof fn law_clients_are_made_once(start: PullView, replies: Seq<PullReply>)
    requires
        start == PullView::start(start.image_client, start.aa_client, start.measures),
    ensures
        start.image_client ==> start.after_all(replies).step != Some(PullStep::MakeImageClient),
        start.aa_client != AaClient::Unknown ==> start.after_all(replies).step != Some(
            PullStep::ConnectAa,
        ),
{
    lemma_pull(start, replies);
}

/// The place of a step in any pull.
pub open spec fn rank(step: Option<PullStep>) -> int {
    match step {
        Some(PullStep::MakeImageClient) => 0,
        Some(PullStep::Pull) => 1,
        Some(PullStep::ConnectAa) => 2,
        Some(PullStep::Extend) => 3,
        None => 4,
    }
}

/// The number of replies that answered the step that was to be done.
pub open spec fn answers_given(start: PullView, replies: Seq<PullReply>) -> int
    decreases replies.len(),
{
    if replies.len() == 0 {
        0
    } else {
        answers_given(start, replies.drop_last()) + (match start.after_all(
            replies.drop_last(),
        ).step {
            Some(step) if answers(step, replies.last()) => 1int,
            _ => 0int,
        })
    }
}

/// A pull ends: every answer leads to a later step or to the end, so that there are no
/// more than four of them.
pub proof fn law_pull_ends(start: PullView, replies: Seq<PullReply>)
    requires
        start == PullView::start(start.image_client, start.aa_client, start.measures),
    ensures
        0 <= answers_given(start, replies) <= rank(start.after_all(replies).step) <= 4,
    decreases replies.len(),
{
    lemma_pull(start, replies);
    if replies.len() > 0 {
        law_pull_ends(start, replies.drop_last());
        lemma_pull(start, replies.drop_last());
    }
}

/// An answer to a step leads to what comes next, wherever the pull has come from: a
/// client that was made is kept and used; a digest is kept; measuring comes after the
/// pull exactly where it is switched on and there may be an agent; any known result of
/// a measurement ends the pull without an error, and so does the lack of an agent.
pub proof fn law_answer_leads_on(
    start: PullView,
    replies: Seq<PullReply>,
    digest: String,
    result: RuntimeMeasurementResult,
    cause: String,
)
    requires
        start == PullView::start(start.image_client, start.aa_client, start.measures),
    ensures
        ({
            let state = start.after_all(replies);
            let made = state.after(PullReply::Made);
            let pulled = state.after(PullReply::Pulled { digest });
            let alone = state.after(PullReply::NoAgent);
            let measured = state.after(PullReply::Measured(result));
            let unknown = state.after(PullReply::UnknownResult { cause });
            let failed = state.after(PullReply::Failed { cause });
            &&& state.step == Some(PullStep::MakeImageClient) ==> made.step == Some(PullStep::Pull)
                && made.image_client && !made.failed
            &&& state.step == Some(PullStep::Pull) ==> {
                &&& pulled.digest == Some(digest@)
                &&& !pulled.failed
                &&& pulled.step == Some(PullStep::ConnectAa) <==> start.measures
                    && start.aa_client == AaClient::Unknown
                &&& pulled.step == Some(PullStep::Extend) <==> start.measures && start.aa_client
                    == AaClient::Connected
                &&& pulled.step is None <==> !start.measures || start.aa_client == AaClient::Absent
            }
            &&& state.step == Some(PullStep::ConnectAa) ==> {
                &&& made.step == Some(PullStep::Extend)
                &&& made.aa_client == AaClient::Connected
                &&& made.digest == state.digest && state.digest is Some
                &&& !made.failed
                &&& alone.step is None
                &&& alone.aa_client == AaClient::Absent
                &&& alone.digest == state.digest
                &&& !alone.failed
            }
            &&& state.step == Some(PullStep::Extend) ==> {
                &&& measured.step is None
                &&& measured.digest == state.digest && state.digest is Some
                &&& !measured.failed
                &&& unknown.step is None
                &&& unknown.failed
            }
            &&& state.step is Some ==> failed.step is None && failed.failed
            &&& state.step is None ==> made == state && pulled == state && alone == state
                && measured == state && unknown == state && failed == state
        }),
{
    lemma_pull(start, replies);
}

/// A hub that makes its clients and has its image measured hands out the digest of the
/// pulled image, whatever the digest and the result are.
pub proof fn law_pull_runs_through(digest: String, result: RuntimeMeasurementResult)
    ensures
        ({
            let start = PullView::start(false, AaClient::Unknown, true);
            let ended = start.after(PullReply::Made).after(PullReply::Pulled { digest }).after(
                PullReply::Made,
            ).after(PullReply::Measured(result));
            &&& ended.step is None
            &&& ended.digest == Some(digest@)
            &&& !ended.failed
            &&& ended.image_client
            &&& ended.aa_client == AaClient::Connected
        }),
{
}

/// What is found out about the clients is never forgotten.
pub proof fn law_clients_are_kept(state: PullView, reply: PullReply)
    ensures
        state.image_client ==> state.after(reply).image_client,
        state.measures == state.after(reply).measures,
        state.step != Some(PullStep::ConnectAa) ==> state.after(reply).aa_client
            == state.aa_client,
        state.step != Some(PullStep::Pull) ==> state.after(reply).digest == state.digest,
{
}

/// The event that is measured names the image and its digest, each whole and in its
/// place, and so tells any two of them apart that have the same length.
pub proof fn law_event_names_image_and_digest(image_url: Seq<char>, digest: Seq<char>)
    ensures
        ({
            let content = pull_content(image_url, digest);
            let n = 10 + image_url.len() as int;
            &&& content.len() == 25 + image_url.len() + digest.len()
            &&& content.take(10) == "{\"image\":\""@
            &&& content.subrange(10, n) == image_url
            &&& content.subrange(n, n + 13) == "\", \"digest\":\""@
            &&& content.subrange(n + 13, n + 13 + digest.len()) == digest
            &&& content.skip(n + 13 + digest.len()) == "\"}"@
        }),
        EXTEND_RUNTIME_MEASUREMENT_TIMEOUT == 10_000_000_000,
{
    reveal_strlit("{\"image\":\"");
    reveal_strlit("\", \"digest\":\"");
    reveal_strlit("\"}");
    let content = pull_content(image_url, digest);
    let n = 10 + image_url.len() as int;
    assert("{\"image\":\""@.len() == 10);
    assert("\", \"digest\":\""@.len() == 13);
    assert("\"}"@.len() == 2);
    assert(content.take(10) =~= "{\"image\":\""@);
    assert(content.subrange(10, n) =~= image_url);
    assert(content.subrange(n, n + 13) =~= "\", \"digest\":\""@);
    assert(content.subrange(n + 13, n + 13 + digest.len()) =~= digest);
    assert(content.skip(n + 13 + digest.len()) =~= "\"}"@);
}

/// The path of a socket is its address without the scheme, and an address without the
/// scheme is a path.
pub proof fn law_socket_path_has_no_scheme(path: Seq<char>, other: Seq<char>)
    ensures
        socket_path("unix://"@ + path) == path,
        (forall|r: Seq<char>| other != #[trigger] ("unix://"@ + r)) ==> socket_path(other)
            == other,
{
    text::law_prefix_comes_off("unix://"@, path, other);
}

/// An error tells what the attestation agent was asked for, and the whole cause; an
/// image that could not be had stands with its own cause.
pub proof fn law_error_tells_what_was_asked_for(
    step: PullStep,
    cause: String,
    e: Error,
)
    ensures
        is_step_error(step, PullReply::Failed { cause }, e) ==> match step {
            PullStep::ConnectAa => e is AttestationAgentClientError
                && e->AttestationAgentClientError_source@
                == "failed to connect to attestation agent: "@ + cause@,
            PullStep::Extend => e is AttestationAgentClientError
                && e->AttestationAgentClientError_source@
                == "failed to extend runtime measurement: "@ + cause@,
            _ => e == (Error::Image { source: cause }),
        },
        is_step_error(step, PullReply::UnknownResult { cause }, e)
            ==> e is AttestationAgentClientError && e->AttestationAgentClientError_source@
            == "failed to get runtime measurement result: "@ + cause@,
{
}

} // verus!
