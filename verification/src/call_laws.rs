//! What the calls of the library give, whatever they are given.

use crate::cdh;
use crate::cdh::{parse_features, CDHClient, Features, GetResourceRequest, ResourceMethod};
use crate::hub;
use crate::hub::{secure_volume_resource_error, Error, Hub, HubConfig, ResourceAction, ResourceClient};
use crate::image::{Ttrpc, TtrpcAction, TtrpcError};
use crate::kms::{aa_token_request_timeout, AaKbcParams, KbcClient, KmsError};
use crate::pull;
use crate::pull::{aa_socket_path, pull_event, ImagePull, MeasurementEvent, PullReply, PullStep};
use crate::resource;
use crate::resource::{ParsedUri, ProtectedResourcePrefixes, ResourceUri};
use crate::stream;
use crate::stream::{
    async_processing, encode_hex, rolled_back, stream_processing, DigestAlgorithm, DigestHasher,
    HashReader, LayerDigestHasher, StreamError, UnpackError, Unpacked,
};
use crate::timeout;
use crate::timeout::{parse_nonzero_seconds, NonZeroSeconds, RequestContext, RequestTimeout};
use crate::token;
use crate::token::{AATokenProvider, GetTokenRequest, TokenError, TokenMessage, TokenStep};
use crate::volume::{VolumeActivation, VolumeReply, VolumeStep};
use vstd::prelude::*;
use vstd::string::*;

verus! {

/// The seconds that are written are the seconds that are read, from one to the largest
/// number; everything that is read is not zero.
pub proof fn law_written_seconds_are_read(n: nat, s: &str, r: Result<NonZeroSeconds, String>)
    requires
        call_ensures(parse_nonzero_seconds, (s,), r),
    ensures
        0 < n <= u32::MAX && s@ == timeout::numeral(n) ==> (r matches Ok(secs) && secs@ == n),
        n == 0 || n > u32::MAX ==> (s@ == timeout::numeral(n) ==> r is Err),
        r matches Ok(secs) ==> secs@ > 0,
{
    timeout::law_numeral_is_read_back(n);
}

/// Every timeout that fits is carried whole by each client's context, and of a longer one
/// what 64 bits hold.
pub proof fn law_contexts_carry_the_timeout(
    t: RequestTimeout,
    image: Ttrpc,
    a: RequestContext,
    b: RequestContext,
    c: RequestContext,
)
    requires
        call_ensures(cdh::request_context, (t,), a),
        call_ensures(token::request_context, (t,), b),
        call_ensures(Ttrpc::request_context, (&image,), c),
    ensures
        t@ <= i64::MAX ==> a.timeout_nano == t@ && b.timeout_nano == t@,
        image.timeout() <= i64::MAX ==> c.timeout_nano == image.timeout(),
        a == b,
        (t@ - a.timeout_nano) % 0x1_0000_0000_0000_0000 == 0,
        (image.timeout() - c.timeout_nano) % 0x1_0000_0000_0000_0000 == 0,
{
    timeout::law_context_keeps_what_fits(t@ as int);
    timeout::law_context_keeps_what_fits(image.timeout() as int);
}

/// The REST client asks the public method for the resource of the key broker at the
/// very path that it was given, with its own timeout.
pub proof fn law_workload_request_is_public(
    addr: &str,
    t: RequestTimeout,
    client: CDHClient,
    path: &str,
    r: GetResourceRequest,
    m: ResourceMethod,
)
    requires
        call_ensures(CDHClient::new, (addr, t), client),
        call_ensures(CDHClient::get_resource, (&client, path), r),
        call_ensures(CDHClient::method, (&client,), m),
    ensures
        client.addr() == addr@,
        r.method == ResourceMethod::Public,
        m == ResourceMethod::Public,
        r.resource_path@ == "kbs://"@ + path@,
        t@ <= i64::MAX ==> r.context.timeout_nano == t@,
        (t@ - r.context.timeout_nano) % 0x1_0000_0000_0000_0000 == 0,
{
    timeout::law_context_keeps_what_fits(t@ as int);
}

/// The image client asks the private method for the very resource that it was given,
/// with its own timeout, once it is connected; what comes back is handed on unchanged.
pub proof fn law_image_request_is_private(
    client: Ttrpc,
    path: &str,
    r: TtrpcAction,
    m: ResourceMethod,
    reply: Result<Vec<u8>, String>,
    result: Result<Vec<u8>, TtrpcError>,
)
    requires
        call_ensures(Ttrpc::get_resource, (&client, path), r),
        call_ensures(Ttrpc::method, (&client,), m),
        call_ensures(Ttrpc::request_result, (reply,), result),
    ensures
        m == ResourceMethod::Private,
        client.connected() <==> r is Request,
        r matches TtrpcAction::Request(request) ==> {
            &&& request.method == ResourceMethod::Private
            &&& request.resource_path@ == path@
            &&& client.timeout() <= i64::MAX ==> request.context.timeout_nano == client.timeout()
            &&& (client.timeout() - request.context.timeout_nano) % 0x1_0000_0000_0000_0000 == 0
        },
        reply is Ok <==> result is Ok,
        reply matches Ok(bytes) ==> result->Ok_0 == bytes,
        reply matches Err(cause) ==> result->Err_0 == (TtrpcError::Request { cause }),
{
    timeout::law_context_keeps_what_fits(client.timeout() as int);
}

/// The services are those that are named.
pub proof fn law_features_are_those_named(s: &str, r: Option<Features>)
    requires
        call_ensures(parse_features, (s,), r),
    ensures
        r is Some <==> s@ == "resource"@ || s@ == "attestation"@ || s@ == "all"@,
        r matches Some(f) ==> (f.resource <==> s@ != "attestation"@),
        r matches Some(f) ==> (f.attestation <==> s@ != "resource"@),
{
    cdh::law_features_are_asked_for_by_name(s@);
    reveal_strlit("resource");
    reveal_strlit("attestation");
    reveal_strlit("all");
    assert("resource"@.len() == 8 && "attestation"@.len() == 11 && "all"@.len() == 3);
}

/// A provider asks for a token of the key broker, at the socket and with the timeout
/// that it was made with, which by default are the usual ones.
pub proof fn law_token_request_is_the_providers(
    socket: &str,
    t: RequestTimeout,
    usual: AATokenProvider,
    at: AATokenProvider,
    both: AATokenProvider,
    r: GetTokenRequest,
    s: GetTokenRequest,
)
    requires
        call_ensures(AATokenProvider::new, (), usual),
        call_ensures(AATokenProvider::new_with_socket, (socket,), at),
        call_ensures(AATokenProvider::new_with_socket_and_timeout, (socket, t), both),
        call_ensures(AATokenProvider::get_token, (&both,), r),
        call_ensures(AATokenProvider::get_token, (&at,), s),
    ensures
        usual.socket()
            == "unix:///run/confidential-containers/attestation-agent/attestation-agent.sock"@,
        usual.timeout() == 50_000_000_000,
        at.socket() == socket@,
        at.timeout() == usual.timeout(),
        both.socket() == socket@,
        r.token_type@ == "kbs"@,
        t@ <= i64::MAX ==> r.context.timeout_nano == t@,
        (t@ - r.context.timeout_nano) % 0x1_0000_0000_0000_0000 == 0,
        s.context.timeout_nano == 50_000_000_000,
{
    timeout::law_context_keeps_what_fits(t@ as int);
    timeout::law_context_keeps_what_fits(50_000_000_000);
}

/// A step that failed is told with its whole cause, and no two steps are told alike.
pub proof fn law_token_error_tells_the_step(step: TokenStep, cause: &str, e: TokenError)
    requires
        call_ensures(token::token_step_error, (step, cause), e),
    ensures
        e matches TokenError::AATokenProvider(message) && message@ == (match step {
            TokenStep::Connect => "ttrpc connect failed "@,
            TokenStep::Call => "cal ttrpc failed: "@,
            TokenStep::ReadReply => "deserialize attestation-agent reply failed: "@,
            TokenStep::ReadToken => "deserialize token failed: "@,
            TokenStep::ReadKeyPair => "deserialize tee keypair failed: "@,
        }) + cause@,
{
}

/// The token is read from the text of the token and the key pair from that of the key
/// pair.
pub proof fn law_token_text_is_read(
    message: TokenMessage,
    a: Option<&str>,
    b: Option<&str>,
)
    requires
        call_ensures(TokenMessage::text_for, (&message, TokenStep::ReadToken), a),
        call_ensures(TokenMessage::text_for, (&message, TokenStep::ReadKeyPair), b),
    ensures
        a is Some && a->0@ == message.token@,
        b is Some && b->0@ == message.tee_keypair@,
{
}

/// The token timeout is the one that is set, for every number of seconds, fifty seconds
/// where none is, and an error for everything else.
pub proof fn law_token_timeout(
    n: nat,
    raw: &str,
    r: Result<RequestTimeout, KmsError>,
    usual: Result<RequestTimeout, KmsError>,
)
    requires
        call_ensures(aa_token_request_timeout, (Some(raw),), r),
        call_ensures(aa_token_request_timeout, (None,), usual),
    ensures
        0 < n <= u32::MAX && raw@ == timeout::numeral(n) ==> (r matches Ok(t) && t@ == n
            * 1_000_000_000),
        timeout::nonzero_u32(raw@) is None <==> r is Err,
        usual matches Ok(t) && t@ == 50_000_000_000,
{
    timeout::law_numeral_is_read_back(n);
}

/// The client is the one that the parameters name. The remote one has the address that
/// they give and the timeout that is set, and is there only with its feature; the
/// timeout has no influence on any other.
pub proof fn law_client_is_the_one_named(
    p: AaKbcParams,
    kbs_feature: bool,
    n: nat,
    raw: &str,
    r: Result<KbcClient, KmsError>,
    usual: Result<KbcClient, KmsError>,
)
    requires
        call_ensures(KbcClient::new, (Ok(p), kbs_feature, Some(raw)), r),
        call_ensures(KbcClient::new, (Ok(p), kbs_feature, None), usual),
    ensures
        p.kbc@ == "cc_kbc"@ && kbs_feature ==> {
            &&& 0 < n <= u32::MAX && raw@ == timeout::numeral(n) ==> (r matches Ok(
                KbcClient::Cc { uri, request_timeout },
            ) && uri@ == p.uri@ && request_timeout@ == n * 1_000_000_000)
            &&& timeout::nonzero_u32(raw@) is None <==> r is Err
            &&& usual matches Ok(KbcClient::Cc { uri, request_timeout }) && uri@ == p.uri@
                && request_timeout@ == 50_000_000_000
        },
        p.kbc@ == "offline_fs_kbc"@ ==> (r matches Ok(KbcClient::OfflineFs)) && (usual matches Ok(
            KbcClient::OfflineFs,
        )),
        p.kbc@ != "offline_fs_kbc"@ && (p.kbc@ != "cc_kbc"@ || !kbs_feature) ==> r is Err
            && usual is Err,
{
    timeout::law_numeral_is_read_back(n);
    reveal_strlit("cc_kbc");
    reveal_strlit("offline_fs_kbc");
    assert("cc_kbc"@.len() == 6 && "offline_fs_kbc"@.len() == 14);
}

/// A secret is asked for by the resource that its name was read as, and a name that is
/// no resource is refused by name.
pub proof fn law_secret_is_the_resource_named(
    client: KbcClient,
    name: &str,
    uri: ResourceUri,
    a: Result<ResourceUri, KmsError>,
    b: Result<ResourceUri, KmsError>,
)
    requires
        call_ensures(KbcClient::get_secret, (&client, name, Some(uri)), a),
        call_ensures(KbcClient::get_secret, (&client, name, None), b),
    ensures
        a == Ok::<ResourceUri, KmsError>(uri),
        b matches Err(KmsError::KbsClientError(message)) && message@
            == "illegal kbs resource uri: "@ + name@,
{
}

/// The guard of a configuration: it comes from every configuration whose prefixes are all
/// in order; then it denies whatever lies below any of them, and allows every canonical
/// local resource that parts from all of them.
pub proof fn law_guard_denies_what_is_below(
    prefixes: Vec<ParsedUri>,
    configured: Result<ProtectedResourcePrefixes, String>,
    uri: ParsedUri,
    allowed: bool,
    i: int,
)
    requires
        call_ensures(ProtectedResourcePrefixes::from_config, (&prefixes,), configured),
        configured is Ok ==> call_ensures(
            ProtectedResourcePrefixes::allows,
            (&configured->Ok_0, &uri),
            allowed,
        ),
        0 <= i < prefixes@.len(),
    ensures
        configured is Ok <==> forall|j: int|
            0 <= j < prefixes@.len() ==> (#[trigger] prefixes@[j]).prefix_error() is None,
        configured is Ok && uri.resource() is None ==> !allowed,
        configured is Ok && (uri.resource() matches Some(r) && prefixes@[i].prefix_path().is_prefix_of(
            r.path,
        )) ==> !allowed,
        configured is Ok && (uri.resource() matches Some(r) && {
            &&& r.default_plugin && r.kbs_address.len() == 0 && r.query is None && r.whole_uri
                == uri.text@
            &&& forall|k: int| 0 <= k < r.path.len() ==> (#[trigger] r.path[k]).len() > 0
            &&& forall|j: int|
                0 <= j < prefixes@.len() ==> resource::part(
                    (#[trigger] prefixes@[j]).prefix_path(),
                    r.path,
                )
        }) ==> allowed,
{
    resource::law_first_bad_prefix_counts(prefixes@);
    let paths = prefixes@.map_values(|prefix: ParsedUri| prefix.prefix_path());
    assert(paths[i] == prefixes@[i].prefix_path());
    if uri.resource() is Some {
        resource::law_public_is_what_parts_from_every_prefix(
            paths,
            uri.text@,
            uri.resource()->0,
        );
        if configured is Ok && prefixes@[i].prefix_path().is_prefix_of(uri.resource()->0.path) {
            resource::law_below_a_prefix_is_denied(
                prefixes@,
                i,
                uri.text@,
                uri.resource()->0,
            );
        }
        if forall|j: int|
            0 <= j < prefixes@.len() ==> resource::part(
                (#[trigger] prefixes@[j]).prefix_path(),
                uri.resource()->0.path,
            ) {
            assert forall|j: int| 0 <= j < paths.len() implies resource::part(
                #[trigger] paths[j],
                uri.resource()->0.path,
            ) by {
                assert(paths[j] == prefixes@[j].prefix_path());
            }
        }
    }
}

/// A workload gets what the guard allows and is denied everything else; what the hub
/// itself reads is not guarded. Each asks for the very URI that was given.
pub proof fn law_guard_stands_before_workloads(
    hub: Hub,
    uri: ParsedUri,
    text: &str,
    public: Result<ResourceAction, Error>,
    private: ResourceAction,
    client: ResourceClient,
    action: ResourceAction,
)
    requires
        call_ensures(Hub::get_public_resource, (&hub, &uri), public),
        call_ensures(Hub::get_resource, (&hub, text), private),
        call_ensures(ResourceClient::get, (&client, text), action),
    ensures
        resource::is_public(hub.protected(), uri.text@, uri.resource()) <==> public is Ok,
        public is Err ==> public->Err_0 is PublicResourceDenied,
        public is Ok && hub.connected() ==> (public->Ok_0 matches ResourceAction::Request { uri: u }
            && u@ == uri.text@),
        public is Ok && !hub.connected() ==> public->Ok_0 is Connect,
        hub.connected() ==> (private matches ResourceAction::Request { uri: u } && u@ == text@),
        !hub.connected() ==> private is Connect,
        client.connected() ==> (action matches ResourceAction::Request { uri: u } && u@ == text@),
        !client.connected() ==> action is Connect,
{
}

/// A hub has what it was configured with, and starts without any client; a configuration
/// with a prefix that is not in order makes none.
pub proof fn law_hub_has_its_configuration(config: HubConfig, r: Result<Hub, Error>, i: int)
    requires
        call_ensures(Hub::new, (&config,), r),
        0 <= i < config.credentials@.len(),
        forall|j: int|
            i < j < config.credentials@.len() ==> (#[trigger] config.credentials@[j]).path@
                != config.credentials@[i].path@,
    ensures
        r is Ok <==> forall|j: int|
            0 <= j < config.protected_resource_uri_prefixes@.len() ==> (
            #[trigger] config.protected_resource_uri_prefixes@[j]).prefix_error() is None,
        r is Err ==> r->Err_0 is InitializationFailed,
        r matches Ok(hub) ==> {
            &&& hub.measures() == config.runtime_measurement
            &&& !hub.connected() && !hub.has_image_client()
            &&& hub.aa_client() == hub::AaClient::Unknown
            &&& hub.protected().len() == config.protected_resource_uri_prefixes@.len()
            &&& exists|k: int|
                0 <= k < hub.entries().len() && (#[trigger] hub.entries()[k]).path@
                    == config.credentials@[i].path@ && hub.entries()[k].resource_uri@
                    == config.credentials@[i].resource_uri@
        },
{
    resource::law_first_bad_prefix_counts(config.protected_resource_uri_prefixes@);
    if r is Ok {
        hub::law_last_credential_counts(config.credentials@, r->Ok_0.entries(), i);
    }
}

/// The resource of a path is found exactly where the hub has one for it.
pub proof fn law_credential_is_found(hub: Hub, path: &str, r: Option<&str>)
    requires
        call_ensures(Hub::credential, (&hub, path), r),
    ensures
        r is Some <==> hub::has_entry(hub.entries(), path@),
        r matches Some(uri) ==> exists|i: int|
            0 <= i < hub.entries().len() && (#[trigger] hub.entries()[i]).path@ == path@
                && hub.entries()[i].resource_uri@ == uri@,
{
}

/// A resource that was handed out is handed on unchanged, and a failure with its whole
/// cause; an error while a volume is activated keeps stage, reason and source.
pub proof fn law_hub_replies_are_handed_on(
    reply: Result<Vec<u8>, String>,
    r: Result<Vec<u8>, Error>,
    stage: &'static str,
    source: Error,
    e: Error,
)
    requires
        call_ensures(ResourceClient::request_result, (reply,), r),
        call_ensures(secure_volume_resource_error, (stage, source), e),
    ensures
        reply matches Ok(bytes) ==> r == Ok::<Vec<u8>, Error>(bytes),
        reply matches Err(cause) ==> r == Err::<Vec<u8>, Error>(Error::GetResource {
            source: cause,
        }),
        e matches Error::SecureVolumeResource { stage: s, reason, source: inner } && {
            &&& s@ == stage@
            &&& *inner == source
            &&& source is KbsClient ==> reason@ == "client_initialization"@
            &&& source is GetResource ==> reason@ == "resource_request"@
            &&& !(source is KbsClient) && !(source is GetResource) ==> reason@ == "unexpected"@
        },
{
}

/// What answered a request is what is handed out next, all of it: the manifest to read,
/// and the key to verify.
pub proof fn law_fetched_bytes_are_handed_out<A, M, T>(
    before: VolumeActivation<A, M, T>,
    after: VolumeActivation<A, M, T>,
    resource: Vec<u8>,
    parse: Option<&[u8]>,
    verify: Option<&[u8]>,
)
    requires
        before@.steps.steps == crate::volume::volume_steps(),
        before@.steps.valid(),
        call_ensures(VolumeActivation::<A, M, T>::manifest_to_parse, (&after,), parse),
        call_ensures(VolumeActivation::<A, M, T>::key_to_verify, (&after,), verify),
    ensures
        before@.next() == Some(VolumeStep::FetchManifest) && after@ == before@.after(
            VolumeReply::Fetched { resource },
        ) ==> parse is Some && parse->0@ == resource@,
        before@.next() == Some(VolumeStep::FetchKey) && after@ == before@.after(
            VolumeReply::Fetched { resource },
        ) ==> verify is Some && verify->0@ == resource@,
{
    let steps = crate::volume::volume_steps();
    assert(steps[2] == VolumeStep::ParseManifest && steps[5] == VolumeStep::VerifyKey);
    let done = before@.steps.done;
    if before@.next() == Some(VolumeStep::FetchManifest) {
        assert(done == 1);
    }
    if before@.next() == Some(VolumeStep::FetchKey) {
        assert(done == 4);
    }
}

/// An activation asks for its own manifest, and later for the key that the manifest
/// named; it ends with what activating came to.
pub proof fn law_activation_asks_for_its_own<A, M, T>(
    v: VolumeActivation<A, M, T>,
    uri: Option<&str>,
    device: &str,
    access: &A,
    r: Option<Result<T, Error>>,
)
    requires
        call_ensures(VolumeActivation::<A, M, T>::fetch_uri, (&v,), uri),
        call_ensures(VolumeActivation::<A, M, T>::device_id, (&v,), device),
        call_ensures(VolumeActivation::<A, M, T>::requested_access, (&v,), access),
        call_ensures(VolumeActivation::<A, M, T>::finish, (v,), r),
    ensures
        v@.next() == Some(VolumeStep::FetchManifest) ==> uri is Some && uri->0@ == v@.manifest_uri,
        v@.next() == Some(VolumeStep::FetchKey) ==> uri is Some && Some(uri->0@) == v@.key_uri,
        device@ == v@.device_id,
        *access == v@.access,
        v.error() is None && v@.steps.complete() ==> (r matches Some(Ok(t)) && Some(t)
            == v@.activation),
        v.error() matches Some(e) ==> (r matches Some(Err(f)) && f == e),
        v.error() is None && !v@.steps.complete() ==> r is None,
{
}

/// A pull that has ended hands out the digest, and its event names the image and the
/// digest of that very pull.
pub proof fn law_pull_hands_out_its_digest(
    p: ImagePull,
    event: Option<MeasurementEvent>,
    step: Option<PullStep>,
    r: Option<Result<String, Error>>,
    address: &str,
    path: &str,
)
    requires
        call_ensures(ImagePull::event, (&p,), event),
        call_ensures(ImagePull::next_step, (&p,), step),
        call_ensures(ImagePull::finish, (p,), r),
        call_ensures(aa_socket_path, (address,), path),
    ensures
        step == p.step(),
        p.error() is None && step is None ==> (p.digest() matches Some(d) ==> (r matches Some(Ok(
            digest,
        )) && digest@ == d)),
        p.error() is None && step is Some ==> r is None,
        p.error() matches Some(e) ==> (r matches Some(Err(f)) && f == e),
        p.digest() is Some <==> event is Some,
        p.digest() matches Some(d) ==> (event matches Some(ev) && {
            &&& ev.domain@ == "github.com/confidential-containers"@
            &&& ev.operation@ == "PullImage"@
            &&& ev.content@ == pull::pull_content(p.url(), d)
            &&& ev.context.timeout_nano == 10_000_000_000
        }),
        path@ == pull::socket_path(address@),
{
}

/// A layer is hashed by the algorithm that its expected digest names, whatever follows
/// the name, and is refused where it names neither.
pub proof fn law_layer_is_hashed_as_named(
    diff_id: &str,
    rest: Seq<char>,
    r: Result<LayerDigestHasher, StreamError>,
)
    requires
        call_ensures(stream_processing, (diff_id,), r),
    ensures
        diff_id@ == "sha256:"@ + rest ==> (r matches Ok(h) && h.algorithm()
            == DigestAlgorithm::Sha256 && h.fed().len() == 0),
        diff_id@ == "sha512:"@ + rest ==> (r matches Ok(h) && h.algorithm()
            == DigestAlgorithm::Sha512 && h.fed().len() == 0),
        (forall|x: Seq<char>|
            diff_id@ != #[trigger] ("sha256:"@ + x) && diff_id@ != "sha512:"@ + x) ==> (r matches
            Err(StreamError::UnsupportedDigestFormat(text)) && text@ == diff_id@),
{
    stream::law_algorithm_is_the_one_that_is_named(rest, diff_id@);
}

/// A layer that was unpacked has the digest of all bytes that were read; one that was not
/// is removed, and the error says why it could not be unpacked, or why it could not be
/// removed.
pub proof fn law_layer_is_there_whole_or_not_at_all<R>(
    reader: HashReader<R, LayerDigestHasher>,
    error: UnpackError,
    done: Unpacked,
    failed: Unpacked,
    io: std::io::Error,
    removed: StreamError,
    stuck: StreamError,
)
    requires
        call_ensures(async_processing::<R, LayerDigestHasher>, (reader, Ok(())), done),
        call_ensures(async_processing::<R, LayerDigestHasher>, (reader, Err(error)), failed),
        call_ensures(rolled_back, (error, Ok(())), removed),
        call_ensures(rolled_back, (error, Err(io)), stuck),
    ensures
        done matches Unpacked::Digest(digest) && digest@ == (match reader.hasher {
            LayerDigestHasher::Sha256(h) => "sha256:"@ + stream::hex(
                stream::sha256(stream::sha256_fed(h)),
            ),
            LayerDigestHasher::Sha512(h) => "sha512:"@ + stream::hex(
                stream::sha512(stream::sha512_fed(h)),
            ),
        }),
        failed == (Unpacked::RollBack { error }),
        removed == StreamError::UnPackLayerFailed(error),
        stuck == (StreamError::FailedToRollBack { source: io }),
{
}

/// Bytes are told apart by their hexadecimal text, and read back out of it.
pub proof fn law_hex_text_is_read_back(bytes: &[u8], r: String, i: int)
    requires
        call_ensures(encode_hex, (bytes,), r),
        0 <= i < bytes@.len(),
    ensures
        r@.len() == 2 * bytes@.len(),
        16 * stream::hex_value(r@[2 * i]) + stream::hex_value(r@[2 * i + 1]) == bytes@[i],
{
    stream::law_hex_is_read_back(bytes@, i);
}

/// The event of a pull names the image and the digest that it was made for.
pub proof fn law_event_is_of_its_image(image_url: &str, digest: &str, r: MeasurementEvent)
    requires
        call_ensures(pull_event, (image_url, digest), r),
    ensures
        r.content@.subrange(10, 10 + image_url@.len() as int) == image_url@,
        r.content@.subrange(
            23 + image_url@.len() as int,
            23 + image_url@.len() + digest@.len() as int,
        ) == digest@,
        r.operation@ == "PullImage"@,
        r.context.timeout_nano == 10_000_000_000,
{
    pull::law_event_names_image_and_digest(image_url@, digest@);
}

/// What is read is hashed: exactly what the reader has added to the buffer, of whatever
/// length, is fed to the hasher, behind what it was fed before.
pub proof fn law_what_is_read_is_hashed<R>()
    ensures
        forall|v: &mut HashReader<R, LayerDigestHasher>, before: Seq<u8>, added: Seq<u8>,
            filled: &[u8], old_position: usize|
            #![trigger call_ensures(
                HashReader::<R, LayerDigestHasher>::absorb,
                (v, filled, old_position),
                (),
            ), before + added]
            call_ensures(
                HashReader::<R, LayerDigestHasher>::absorb,
                (v, filled, old_position),
                (),
            ) && filled@ == before + added && before.len() == old_position ==> {
                &&& final(v).hasher.fed() == v.hasher.fed() + added
                &&& final(v).hasher.algorithm() == v.hasher.algorithm()
                &&& final(v).reader == v.reader
            },
{
    assert forall|before: Seq<u8>, added: Seq<u8>| (#[trigger] (before + added)).skip(
        before.len() as int,
    ) == added by {
        assert((before + added).skip(before.len() as int) =~= added);
    }
}

/// A reply to an activation is taken up whole: bytes that were handed out are kept as
/// they are, the manifest and the URI of the key as they came, and what activating came
/// to. An error ends it, and what is asked for does not change.
pub proof fn law_volume_report_is_taken_up<A, M, T>()
    ensures
        forall|v: &mut VolumeActivation<A, M, T>, reply: VolumeReply<M, T>| #[trigger]
            call_ensures(VolumeActivation::<A, M, T>::report, (v, reply), ()) ==> {
                let next = v@.next();
                &&& next == Some(VolumeStep::FetchManifest) && reply is Fetched
                    ==> final(v)@.manifest_bytes == Some(reply->resource@)
                &&& next == Some(VolumeStep::FetchKey) && reply is Fetched ==> final(v)@.key
                    == Some(reply->resource@)
                &&& next == Some(VolumeStep::ParseManifest) && reply is Manifest
                    ==> final(v)@.manifest == Some(reply->manifest) && final(v)@.key_uri == Some(
                    reply->key_uri@,
                )
                &&& next == Some(VolumeStep::Activate) && reply is Activated
                    ==> final(v)@.activation == Some(reply->activation)
                &&& reply is Failed && next is Some ==> final(v)@.next() is None && final(v).error() is Some
                &&& !(reply is Failed) ==> final(v).error() == v.error()
                &&& next is None ==> final(v)@ == v@
                &&& next != Some(VolumeStep::FetchKey) ==> final(v)@.key == v@.key
                &&& next != Some(VolumeStep::FetchManifest) ==> final(v)@.manifest_bytes
                    == v@.manifest_bytes
                &&& final(v)@.device_id == v@.device_id
                &&& final(v)@.manifest_uri == v@.manifest_uri
                &&& final(v)@.access == v@.access
            },
{
}

/// The key is handed out whole, once, and only where the device is about to be activated.
pub proof fn law_key_is_handed_out_once<A, M, T>()
    ensures
        forall|v: &mut VolumeActivation<A, M, T>, r: Option<Vec<u8>>| #[trigger]
            call_ensures(VolumeActivation::<A, M, T>::take_key, (v,), r) ==> {
                &&& v@.next() == Some(VolumeStep::Activate) ==> {
                    &&& r is Some <==> v@.key is Some
                    &&& r matches Some(key) ==> Some(key@) == v@.key
                    &&& final(v)@.key is None
                }
                &&& v@.next() != Some(VolumeStep::Activate) ==> r is None && final(v)@ == v@
                &&& final(v)@.next() == v@.next()
                &&& final(v)@.manifest == v@.manifest
            },
{
}

/// A reply to a pull is taken up: the digest as it came; any known result of a
/// measurement ends the pull without an error, and the digest stays; a failure ends it
/// with an error. What the hub guards and has is not touched.
pub proof fn law_pull_report_is_taken_up()
    ensures
        forall|h: &mut Hub, p: &mut ImagePull, reply: PullReply| #[trigger]
            call_ensures(Hub::report_pull, (h, p, reply), ()) ==> {
                let step = p.step();
                &&& step == Some(PullStep::MakeImageClient) && reply is Made ==> final(p).step()
                    == Some(PullStep::Pull) && final(h).has_image_client()
                &&& step == Some(PullStep::Pull) && reply is Pulled ==> final(p).digest() == Some(
                    reply->digest@,
                ) && (final(p).step() is None <==> !h.measures() || h.aa_client()
                    == hub::AaClient::Absent)
                &&& step == Some(PullStep::ConnectAa) && reply is Made ==> final(p).step() == Some(
                    PullStep::Extend,
                ) && final(h).aa_client() == hub::AaClient::Connected
                &&& step == Some(PullStep::ConnectAa) && reply is NoAgent ==> final(p).step()
                    is None && final(h).aa_client() == hub::AaClient::Absent
                &&& step == Some(PullStep::Extend) && reply is Measured ==> final(p).step() is None
                &&& step is Some && reply is Failed ==> final(p).step() is None && final(p).error() is Some
                &&& step == Some(PullStep::Extend) && reply is UnknownResult ==> final(p).step()
                    is None && final(p).error() is Some
                &&& !(reply is Failed) && !(reply is UnknownResult) ==> final(p).error()
                    == p.error()
                &&& step != Some(PullStep::Pull) ==> final(p).digest() == p.digest()
                &&& h.has_image_client() ==> final(h).has_image_client()
                &&& final(p).url() == p.url()
                &&& final(p).bundle() == p.bundle()
                &&& final(h).protected() == h.protected()
                &&& final(h).entries() == h.entries()
                &&& final(h).connected() == h.connected()
                &&& final(h).measures() == h.measures()
            },
{
    assert forall|h: &mut Hub, p: &mut ImagePull, reply: PullReply| #[trigger]
        call_ensures(Hub::report_pull, (h, p, reply), ()) implies final(h).pull_view(*final(p))
        == h.pull_view(*p).after(reply) by {}
}

/// A client that was made is kept, and one that was not is told with its whole cause; a
/// client that is there is never lost, and nothing else changes.
pub proof fn law_client_is_kept()
    ensures
        forall|c: &mut ResourceClient, made: Result<(), String>, r: Result<(), Error>| #[trigger]
            call_ensures(ResourceClient::connect_result, (c, made), r) ==> {
                &&& final(c).connected() <==> c.connected() || made is Ok
                &&& made is Ok <==> r is Ok
                &&& made matches Err(source) ==> r->Err_0 == (Error::KbsClient { source })
            },
        forall|h: &mut Hub, made: Result<(), String>, r: Result<(), Error>| #[trigger]
            call_ensures(Hub::connect_result, (h, made), r) ==> {
                &&& final(h).connected() <==> h.connected() || made is Ok
                &&& made is Ok <==> r is Ok
                &&& made matches Err(source) ==> r->Err_0 == (Error::KbsClient { source })
                &&& final(h).protected() == h.protected()
                &&& final(h).entries() == h.entries()
                &&& final(h).measures() == h.measures()
            },
        forall|c: &mut Ttrpc, made: Result<(), String>, r: Result<(), TtrpcError>| #[trigger]
            call_ensures(Ttrpc::connect_result, (c, made), r) ==> {
                &&& final(c).connected() <==> c.connected() || made is Ok
                &&& made is Ok <==> r is Ok
                &&& made matches Err(cause) ==> r->Err_0 == (TtrpcError::Connect { cause })
                &&& final(c).timeout() == c.timeout()
            },
{
    hub::lemma_one_attempt(true, true);
    hub::lemma_one_attempt(true, false);
    hub::lemma_one_attempt(false, true);
    hub::lemma_one_attempt(false, false);
}

} // verus!
