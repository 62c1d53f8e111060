//! What is made keeps what it was made with, and hands it out again.

use crate::cdh::CDHClient;
use crate::hub::{Error, Hub, HubConfig, ResourceClient};
use crate::image::{Ttrpc, TtrpcError};
use crate::kms::{token_request_timeout_of, AaKbcParams, KbcClient, KmsError};
use crate::pull::{ImagePull, PullReply, PullStep};
use crate::resource;
use crate::resource::{
    protected_prefix, ParsedUri, ProtectedResourcePrefixes, ResourceUri, ResourceUriView,
};
use crate::sequence::Sequence;
use crate::stream;
use crate::stream::{
    DigestAlgorithm, DigestHasher, HashReader, LayerBlobStreamError, LayerDigestHasher, StreamError,
    UnpackError,
};
use crate::text;
use crate::timeout::{
    kernel_image_resource_timeout, select_cdh_request_timeout, NonZeroSeconds, RequestTimeout,
};
use crate::token::{default_token_request_timeout, get_token_steps, AATokenProvider, TokenStep};
use crate::volume::{VolumeActivation, VolumeReply, VolumeStep};
use vstd::prelude::*;
use vstd::string::*;

verus! {

/// A span of time has the seconds and nanoseconds that it was made of, and a count of
/// seconds is kept unless it is zero.
pub proof fn law_spans_keep_their_seconds(
    secs: u64,
    nanos: u32,
    whole: RequestTimeout,
    both: RequestTimeout,
    read: u64,
    n: u32,
    count: Option<NonZeroSeconds>,
    counted: u32,
)
    requires
        nanos < 1_000_000_000,
        call_ensures(RequestTimeout::from_secs, (secs,), whole),
        call_ensures(RequestTimeout::new, (secs, nanos), both),
        call_ensures(RequestTimeout::as_secs, (&both,), read),
        call_ensures(NonZeroSeconds::new, (n,), count),
        count is Some ==> call_ensures(NonZeroSeconds::get, (&count->0,), counted),
    ensures
        whole@ == secs * 1_000_000_000,
        both@ == secs * 1_000_000_000 + nanos,
        read == secs,
        count is None <==> n == 0,
        count is Some ==> counted == n,
{
}

/// The timeout that is read on the kernel command line is the one that is chosen where
/// the command line of the program sets none.
pub proof fn law_what_the_kernel_sets_is_chosen(
    cmdline: &str,
    read: Option<NonZeroSeconds>,
    chosen: (RequestTimeout, &'static str),
)
    requires
        call_ensures(kernel_image_resource_timeout, (cmdline,), read),
        call_ensures(select_cdh_request_timeout, (None, Some(cmdline)), chosen),
    ensures
        read matches Some(n) ==> chosen.0@ == n@ * 1_000_000_000 && chosen.1@ == "kernel"@,
        read is None ==> chosen.0@ == 50_000_000_000 && chosen.1@ == "default"@,
{
}

/// Clients have the address and the timeout that they were made with, and are connected
/// only where they were made so.
pub proof fn law_clients_keep_their_settings(
    addr: &str,
    t: RequestTimeout,
    rest: CDHClient,
    rest_addr: &str,
    provider: AATokenProvider,
    socket: &str,
    image: Ttrpc,
    usual: Ttrpc,
    fresh: ResourceClient,
    given: ResourceClient,
)
    requires
        call_ensures(CDHClient::new, (addr, t), rest),
        call_ensures(CDHClient::cdh_addr, (&rest,), rest_addr),
        call_ensures(AATokenProvider::new_with_socket_and_timeout, (addr, t), provider),
        call_ensures(AATokenProvider::aa_socket, (&provider,), socket),
        call_ensures(Ttrpc::new, (t,), image),
        call_ensures(Ttrpc::default, (), usual),
        call_ensures(ResourceClient::new, (), fresh),
        call_ensures(ResourceClient::with_client, (), given),
    ensures
        rest_addr@ == addr@,
        rest.timeout() == t@,
        socket@ == addr@,
        provider.timeout() == t@,
        image.timeout() == t@ && !image.connected(),
        usual.timeout() == 50_000_000_000 && !usual.connected(),
        !fresh.connected(),
        given.connected(),
{
}

/// A token is asked for, and then read out of the reply, in this order and no other; its
/// timeout is the one that was read, and fifty seconds where none was set.
pub proof fn law_token_is_asked_for_as_set(
    seconds: NonZeroSeconds,
    cause: String,
    set: Result<RequestTimeout, KmsError>,
    unread: Result<RequestTimeout, KmsError>,
    usual: RequestTimeout,
    steps: Sequence<TokenStep>,
)
    requires
        call_ensures(token_request_timeout_of, (Ok(seconds),), set),
        call_ensures(token_request_timeout_of, (Err(cause),), unread),
        call_ensures(default_token_request_timeout, (), usual),
        call_ensures(get_token_steps, (), steps),
    ensures
        set matches Ok(t) && t@ == seconds@ * 1_000_000_000,
        unread matches Err(KmsError::KbsClientError(message)) && message@
            == "invalid "@ + "AA_TOKEN_REQUEST_TIMEOUT_SECS"@ + ": "@ + cause@,
        usual@ == 50_000_000_000,
        steps@.steps == seq![
            TokenStep::Call,
            TokenStep::ReadReply,
            TokenStep::ReadToken,
            TokenStep::ReadKeyPair,
        ],
        steps@.done == 0 && !steps@.stopped,
{
}

/// Parameters that could not be read make no client, and the cause is told; a client
/// that is not known is named.
pub proof fn law_no_client_without_parameters(
    cause: String,
    p: AaKbcParams,
    kbs_feature: bool,
    timeout: Option<&str>,
    unread: Result<KbcClient, KmsError>,
    r: Result<KbcClient, KmsError>,
)
    requires
        call_ensures(KbcClient::new, (Err(cause), kbs_feature, timeout), unread),
        call_ensures(KbcClient::new, (Ok(p), kbs_feature, timeout), r),
    ensures
        unread matches Err(KmsError::KbsClientError(message)) && message@
            == "Failed to parse aa_kbc_params: "@ + cause@,
        p.kbc@ != "offline_fs_kbc"@ && (p.kbc@ != "cc_kbc"@ || !kbs_feature) ==> (r matches Err(
            KmsError::KbsClientError(message),
        ) && message@ == "unknown kbc name "@ + p.kbc@
            + ", only support `cc_kbc`(feature `kbs`) and `offline_fs_kbc`."@),
{
    reveal_strlit("cc_kbc");
    reveal_strlit("offline_fs_kbc");
    assert("cc_kbc"@.len() == 6 && "offline_fs_kbc"@.len() == 14);
}

/// A resource is one of the local key broker's default plugin, named without a query and
/// in the one way in which it is written.
pub open spec fn is_local(r: ResourceUriView, written: Seq<char>) -> bool {
    r.default_plugin && r.kbs_address.len() == 0 && r.query is None && r.whole_uri == written
}

/// The segments of a protected prefix are those before its last slash, all of them; what
/// is no such prefix is refused with what is wrong with it.
pub proof fn law_prefix_keeps_its_segments(
    prefix: ParsedUri,
    segments: Seq<Seq<char>>,
    r: Result<Vec<String>, String>,
)
    requires
        call_ensures(protected_prefix, (&prefix,), r),
    ensures
        prefix.resource() is None ==> (r matches Err(e) && e@
            == "protected resource prefix is not a KBS URI"@),
        (prefix.resource() matches Some(u) && u.path == segments.push(Seq::<char>::empty())) ==> {
            let u = prefix.resource()->0;
            let closed = is_local(u, prefix.text@) && segments.len() > 0 && forall|i: int|
                0 <= i < segments.len() ==> (#[trigger] segments[i]).len() > 0;
            &&& closed ==> (r matches Ok(path) && text::texts(path@) == segments)
            &&& !closed ==> (r matches Err(e) && e@
                == "protected resource prefix must be a canonical local, query-free kbs URI ending in /"@)
        },
        (prefix.resource() matches Some(u) && (u.path.len() == 0 || u.path.last().len() > 0)) ==> (
        r matches Err(e) && e@
            == "protected resource prefix must be a canonical local, query-free kbs URI ending in /"@),
{
    if prefix.resource() is Some {
        let u = prefix.resource()->0;
        if u.path == segments.push(Seq::<char>::empty()) {
            resource::law_prefix_is_a_closed_path(prefix, u, segments);
        }
        if u.path.len() == 0 || u.path.last().len() > 0 {
            resource::law_open_path_is_no_prefix(prefix);
        }
    }
}

/// A guard has every prefix of its configuration, in order, and so has a hub; what is no
/// local resource with a full path is denied whatever the prefixes are.
pub proof fn law_guard_has_every_prefix(
    config: HubConfig,
    made: Result<ProtectedResourcePrefixes, String>,
    none: ProtectedResourcePrefixes,
    r: Result<Hub, Error>,
    uri: ParsedUri,
    allowed: bool,
    bare: bool,
    i: int,
    segments: Seq<Seq<char>>,
)
    requires
        call_ensures(
            ProtectedResourcePrefixes::from_config,
            (&config.protected_resource_uri_prefixes,),
            made,
        ),
        call_ensures(ProtectedResourcePrefixes::default, (), none),
        call_ensures(Hub::new, (&config,), r),
        made is Ok ==> call_ensures(
            ProtectedResourcePrefixes::allows,
            (&made->Ok_0, &uri),
            allowed,
        ),
        call_ensures(ProtectedResourcePrefixes::allows, (&none, &uri), bare),
        0 <= i < config.protected_resource_uri_prefixes@.len(),
        config.protected_resource_uri_prefixes@[i].resource() is Some,
        config.protected_resource_uri_prefixes@[i].resource()->0.path == segments.push(
            Seq::<char>::empty(),
        ),
    ensures
        made is Ok <==> r is Ok,
        made matches Ok(p) ==> p@.len() == config.protected_resource_uri_prefixes@.len() && p@[i]
            == segments,
        r matches Ok(h) ==> h.protected().len() == config.protected_resource_uri_prefixes@.len()
            && h.protected()[i] == segments,
        made matches Err(e) ==> (r matches Err(Error::InitializationFailed(message)) && message@
            == e@),
        none@.len() == 0,
        made is Ok && (uri.resource() matches Some(u) && !is_local(u, uri.text@)) ==> !allowed,
        made is Ok && (uri.resource() matches Some(u) && exists|k: int|
            0 <= k < u.path.len() && (#[trigger] u.path[k]).len() == 0) ==> !allowed,
        bare <==> (uri.resource() matches Some(u) && is_local(u, uri.text@) && forall|k: int|
            0 <= k < u.path.len() ==> (#[trigger] u.path[k]).len() > 0),
{
    let prefixes = config.protected_resource_uri_prefixes@;
    resource::law_prefix_is_a_closed_path(prefixes[i], prefixes[i].resource()->0, segments);
    let paths = prefixes.map_values(|prefix: ParsedUri| prefix.prefix_path());
    assert(paths[i] == segments);
    if uri.resource() is Some {
        let u = uri.resource()->0;
        resource::law_public_is_what_parts_from_every_prefix(paths, uri.text@, u);
        resource::law_public_is_what_parts_from_every_prefix(none@, uri.text@, u);
    }
}

/// A pull starts with its image and its bundle, with the image client where there is
/// none yet, and nothing has come of it so far.
pub proof fn law_pull_starts_as_asked(
    h: Hub,
    image_url: &str,
    bundle_path: &str,
    p: ImagePull,
    url: &str,
    bundle: &str,
    next: Option<PullStep>,
)
    requires
        call_ensures(Hub::pull_image, (&h, image_url, bundle_path), p),
        call_ensures(ImagePull::image_url, (&p,), url),
        call_ensures(ImagePull::bundle_path, (&p,), bundle),
        call_ensures(ImagePull::next_step, (&p,), next),
    ensures
        url@ == image_url@ && p.url() == image_url@,
        bundle@ == bundle_path@ && p.bundle() == bundle_path@,
        h.has_image_client() ==> next == Some(PullStep::Pull),
        !h.has_image_client() ==> next == Some(PullStep::MakeImageClient),
        p.digest() is None,
        p.error() is None,
{
    let view = h.pull_view(p);
    assert(view.step == p.step() && view.digest == p.digest());
    assert(view.failed == (p.error() is Some));
}

/// An activation starts with its device, its manifest and its access, from the first
/// step, and nothing has come of it so far; what it shows is what it has.
pub proof fn law_activation_starts_as_asked<A, M, T>(
    h: Hub,
    device_id: &str,
    manifest_uri: &str,
    access: A,
    v: VolumeActivation<A, M, T>,
    w: VolumeActivation<A, M, T>,
    uri: &str,
    next: Option<VolumeStep>,
    manifest: Option<&M>,
)
    requires
        call_ensures(Hub::activate_volume::<A, M, T>, (&h, device_id, manifest_uri, access), v),
        call_ensures(VolumeActivation::<A, M, T>::manifest_uri, (&w,), uri),
        call_ensures(VolumeActivation::<A, M, T>::next_step, (&w,), next),
        call_ensures(VolumeActivation::<A, M, T>::manifest, (&w,), manifest),
    ensures
        v@.device_id == device_id@,
        v@.manifest_uri == manifest_uri@,
        v@.access == access,
        v@.next() == Some(VolumeStep::ValidateUri),
        v@.steps.steps.len() == 7,
        v@.manifest_bytes is None && v@.manifest is None && v@.key_uri is None && v@.key is None
            && v@.activation is None,
        v.error() is None,
        uri@ == w@.manifest_uri,
        next == w@.next(),
        manifest is Some <==> w@.manifest is Some,
        manifest matches Some(m) ==> Some(*m) == w@.manifest,
{
}

/// A step that failed ends an activation or a pull with the error that tells of it: a
/// resource that could not be had with the step and the whole source, the attestation
/// agent with what it was asked for and the whole cause, everything else as it is.
pub proof fn law_failed_step_is_told<A, M, T>()
    ensures
        forall|v: &mut VolumeActivation<A, M, T>, error: Error|
            #![trigger call_ensures(
                VolumeActivation::<A, M, T>::report,
                (v, VolumeReply::Failed { error }),
                (),
            )]
            call_ensures(
                VolumeActivation::<A, M, T>::report,
                (v, VolumeReply::Failed { error }),
                (),
            ) && v@.next() is Some ==> {
                let e = final(v).error();
                &&& v@.next() == Some(VolumeStep::FetchManifest) ==> (e matches Some(
                    Error::SecureVolumeResource { stage, source, .. },
                ) && stage@ == "manifest_fetch"@ && *source == error)
                &&& v@.next() == Some(VolumeStep::FetchKey) ==> (e matches Some(
                    Error::SecureVolumeResource { stage, source, .. },
                ) && stage@ == "key_fetch"@ && *source == error)
                &&& v@.next() != Some(VolumeStep::FetchManifest) && v@.next() != Some(
                    VolumeStep::FetchKey,
                ) ==> e == Some(error)
            },
        forall|h: &mut Hub, p: &mut ImagePull, cause: String|
            #![trigger call_ensures(Hub::report_pull, (h, p, PullReply::Failed { cause }), ())]
            call_ensures(Hub::report_pull, (h, p, PullReply::Failed { cause }), ()) && p.step()
                is Some ==> {
                let e = final(p).error();
                &&& p.step() == Some(PullStep::ConnectAa) ==> (e matches Some(
                    Error::AttestationAgentClientError { source },
                ) && source@ == "failed to connect to attestation agent: "@ + cause@)
                &&& p.step() == Some(PullStep::Extend) ==> (e matches Some(
                    Error::AttestationAgentClientError { source },
                ) && source@ == "failed to extend runtime measurement: "@ + cause@)
                &&& p.step() != Some(PullStep::ConnectAa) && p.step() != Some(PullStep::Extend)
                    ==> e == Some(Error::Image { source: cause })
            },
        forall|h: &mut Hub, p: &mut ImagePull, cause: String|
            #![trigger call_ensures(
                Hub::report_pull,
                (h, p, PullReply::UnknownResult { cause }),
                (),
            )]
            call_ensures(Hub::report_pull, (h, p, PullReply::UnknownResult { cause }), ())
                && p.step() == Some(PullStep::Extend) ==> (final(p).error() matches Some(
                Error::AttestationAgentClientError { source },
            ) && source@ == "failed to get runtime measurement result: "@ + cause@),
{
}

/// Errors tell their cause, whole, behind what could not be done; only of the body of a
/// layer nothing is told but that it failed.
pub proof fn law_errors_tell_their_cause(
    cause: &str,
    environment: Error,
    ttrpc: TtrpcError,
    chain: Vec<String>,
    diff_id: String,
    error: UnpackError,
    source: std::io::Error,
    unsupported: String,
    unpacked: String,
    stuck: String,
    body: LayerBlobStreamError,
    said: &'static str,
)
    requires
        call_ensures(Hub::environment_error, (cause,), environment),
        call_ensures(TtrpcError::chain, (&ttrpc,), chain),
        call_ensures(
            StreamError::message,
            (&StreamError::UnsupportedDigestFormat(diff_id),),
            unsupported,
        ),
        call_ensures(StreamError::message, (&StreamError::UnPackLayerFailed(error),), unpacked),
        call_ensures(StreamError::message, (&StreamError::FailedToRollBack { source },), stuck),
        call_ensures(LayerBlobStreamError::message, (&body,), said),
    ensures
        environment matches Error::InitializationFailed(message) && message@
            == "set configuration envs: "@ + cause@,
        ttrpc matches TtrpcError::Connect { cause: c } ==> text::texts(chain@) == seq![c@],
        ttrpc matches TtrpcError::Request { cause: c } ==> text::texts(chain@) == seq![
            "ttrpc request error"@,
            c@,
        ],
        unsupported@ == "Unsupported uncompressed digest format: "@ + diff_id@,
        unpacked@ == "Failed to unpack layer: "@ + error.message@,
        stuck@ == "Failed to roll back when unpacking"@,
        said@ == "OCI layer body stream failed"@,
{
}

/// A hasher starts with nothing, by the algorithm that was asked for; the text of a
/// digest is its name and its hexadecimal digits; a reader keeps what it was made of.
pub proof fn law_hasher_starts_with_nothing<R>(
    algorithm: DigestAlgorithm,
    hasher: LayerDigestHasher,
    digest: &[u8],
    written: String,
    reader: R,
    made: HashReader<R, LayerDigestHasher>,
)
    requires
        call_ensures(LayerDigestHasher::new, (algorithm,), hasher),
        call_ensures(DigestAlgorithm::digest_text, (algorithm, digest), written),
        call_ensures(HashReader::<R, LayerDigestHasher>::new, (reader, hasher), made),
    ensures
        algorithm == DigestAlgorithm::Sha256 <==> hasher is Sha256,
        hasher.algorithm() == algorithm,
        hasher.fed().len() == 0,
        algorithm == DigestAlgorithm::Sha256 ==> written@ == "sha256:"@ + stream::hex(digest@),
        algorithm == DigestAlgorithm::Sha512 ==> written@ == "sha512:"@ + stream::hex(digest@),
        made.reader == reader && made.hasher == hasher,
{
}

/// A list of steps starts at its first step, shows the step that is to be done and those
/// that were, and is complete exactly where all were done.
pub proof fn law_steps_are_shown_as_they_are<S: Copy>(
    steps: Vec<S>,
    fresh: Sequence<S>,
    s: Sequence<S>,
    next: Option<S>,
    done: Vec<S>,
    complete: bool,
)
    requires
        call_ensures(Sequence::<S>::new, (steps,), fresh),
        call_ensures(Sequence::<S>::next, (&s,), next),
        call_ensures(Sequence::<S>::done_steps, (&s,), done),
        call_ensures(Sequence::<S>::is_complete, (&s,), complete),
    ensures
        fresh@.steps == steps@ && fresh@.done == 0 && !fresh@.stopped,
        next is Some <==> !s@.stopped && s@.done < s@.steps.len(),
        next matches Some(step) ==> step == s@.steps[s@.done],
        done@.len() == s@.done,
        forall|i: int| 0 <= i < s@.done ==> #[trigger] done@[i] == s@.steps[i],
        complete <==> !s@.stopped && s@.done == s@.steps.len(),
{
}

/// A resource is seen as it is: every segment of its path, its address, its query and the
/// way in which it is written, and a list of strings by the text of each.
pub proof fn law_resource_is_seen_whole(uri: ParsedUri, r: ResourceUri, list: Seq<String>, i: int)
    requires
        uri.resource == Some(r),
    ensures
        uri.resource() == Some(r@),
        r@.path.len() == r.path@.len(),
        0 <= i < r.path@.len() ==> r@.path[i] == r.path@[i]@,
        r@.kbs_address == r.kbs_address@,
        r@.whole_uri == r.whole_uri@,
        r@.default_plugin == r.default_plugin,
        r@.query is Some <==> r.query is Some,
        r.query matches Some(query) ==> r@.query == Some(query@),
        text::texts(list).len() == list.len(),
        0 <= i < list.len() ==> text::texts(list)[i] == list[i]@,
{
}

/// What does not speak of the step that is to be done changes nothing, of an activation
/// as of a pull: neither what was found, nor the step, nor the error, nor the clients.
pub proof fn law_other_replies_change_nothing<A, M, T>()
    ensures
        forall|v: &mut VolumeActivation<A, M, T>, reply: VolumeReply<M, T>| #[trigger]
            call_ensures(VolumeActivation::<A, M, T>::report, (v, reply), ()) && ({
                let next = v@.next();
                let checks = next == Some(VolumeStep::ValidateUri) || next == Some(
                    VolumeStep::CheckAccess,
                ) || next == Some(VolumeStep::VerifyKey);
                let fetches = next == Some(VolumeStep::FetchManifest) || next == Some(
                    VolumeStep::FetchKey,
                );
                ||| reply is Done && !checks
                ||| reply is Fetched && !fetches
                ||| reply is Manifest && next != Some(VolumeStep::ParseManifest)
                ||| reply is Activated && next != Some(VolumeStep::Activate)
            }) ==> final(v)@ == v@ && final(v).error() == v.error(),
        forall|h: &mut Hub, p: &mut ImagePull, reply: PullReply| #[trigger]
            call_ensures(Hub::report_pull, (h, p, reply), ()) && ({
                let step = p.step();
                ||| reply is Made && step != Some(PullStep::MakeImageClient) && step != Some(
                    PullStep::ConnectAa,
                )
                ||| reply is Pulled && step != Some(PullStep::Pull)
                ||| reply is NoAgent && step != Some(PullStep::ConnectAa)
                ||| reply is Measured && step != Some(PullStep::Extend)
                ||| reply is UnknownResult && step != Some(PullStep::Extend)
            }) ==> {
                &&& final(p).step() == p.step()
                &&& final(p).digest() == p.digest()
                &&& final(p).error() == p.error()
                &&& final(h).has_image_client() == h.has_image_client()
                &&& final(h).aa_client() == h.aa_client()
            },
{
    assert forall|h: &mut Hub, p: &mut ImagePull, reply: PullReply| #[trigger]
        call_ensures(Hub::report_pull, (h, p, reply), ()) implies final(h).pull_view(*final(p))
        == h.pull_view(*p).after(reply) by {}
}

} // verus!
