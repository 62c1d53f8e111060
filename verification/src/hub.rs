//! The data hub: which resources it hands out, and the order in which a volume is
//! activated and an image pulled.

use crate::resource::{ParsedUri, ProtectedResourcePrefixes};
use crate::text;
use vstd::prelude::*;
use vstd::string::*;

verus! {

/// Why the data hub does not do what it is asked to.
#[allow(inconsistent_fields)]
pub enum Error {
    /// The hub could not be set up.
    InitializationFailed(String),
    /// There is no client of the key broker.
    KbsClient { source: String },
    /// The key broker did not hand a resource out.
    GetResource { source: String },
    /// The resource is not for workloads.
    PublicResourceDenied,
    /// A resource that a secure volume needs could not be had.
    SecureVolumeResource { stage: &'static str, reason: &'static str, source: Box<Error> },
    /// A secure volume was refused.
    SecureVolume { source: String },
    /// An image could not be pulled.
    Image { source: String },
    /// The attestation agent did not do what it was asked to.
    AttestationAgentClientError { source: String },
}

/// The reason that is given for a resource that could not be had.
pub open spec fn resource_failure_reason(source: Error) -> Seq<char> {
    match source {
        Error::KbsClient { .. } => "client_initialization"@,
        Error::GetResource { .. } => "resource_request"@,
        _ => "unexpected"@,
    }
}

/// Whether `e` says that a resource could not be had at `stage` because of `source`.
pub open spec fn is_secure_volume_resource_error(e: Error, stage: Seq<char>, source: Error) -> bool {
    e matches Error::SecureVolumeResource { stage: s, reason, source: inner } && {
        &&& s@ == stage
        &&& reason@ == resource_failure_reason(source)
        &&& *inner == source
    }
}

/// The error of a resource that could not be had while a volume was activated.
pub fn secure_volume_resource_error(stage: &'static str, source: Error) -> (r: Error)
    ensures
        is_secure_volume_resource_error(r, stage@, source),
{
    let reason = match &source {
        Error::KbsClient { .. } => "client_initialization",
        Error::GetResource { .. } => "resource_request",
        _ => "unexpected",
    };
    Error::SecureVolumeResource { stage, reason, source: Box::new(source) }
}

/// What is to be done to get a resource.
pub enum ResourceAction {
    /// Make a client of the key broker with the default settings, which attests.
    Connect,
    /// Ask the client for a resource.
    Request { uri: String },
}

/// The one client of the key broker that the hub keeps.
pub struct ResourceClient {
    connected: bool,
}

impl ResourceClient {
    /// Whether there is a client.
    pub closed spec fn connected(&self) -> bool {
        self.connected
    }

    pub fn new() -> (r: Self)
        ensures
            !r.connected(),
    {
        ResourceClient { connected: false }
    }

    /// The hub with a client that is there already.
    pub fn with_client() -> (r: Self)
        ensures
            r.connected(),
    {
        ResourceClient { connected: true }
    }

    /// What is to be done to get the resource at `uri`.
    pub fn get(&self, uri: &str) -> (r: ResourceAction)
        ensures
            if self.connected() {
                r matches ResourceAction::Request { uri: u } && u@ == uri@
            } else {
                r is Connect
            },
    {
        if self.connected {
            ResourceAction::Request { uri: uri.to_owned() }
        } else {
            ResourceAction::Connect
        }
    }

    /// Keeps the client that was made. Where none could be made, the next request
    /// tries again.
    pub fn connect_result(&mut self, made: Result<(), String>) -> (r: Result<(), Error>)
        ensures
            final(self).connected() == connected_after(old(self).connected(), seq![made is Ok]),
            match made {
                Ok(_) => r is Ok,
                Err(source) => r == Err::<(), Error>(Error::KbsClient { source }),
            },
    {
        proof {
            lemma_one_attempt(self.connected, made is Ok);
        }
        match made {
            Ok(_) => {
                self.connected = true;
                Ok(())
            },
            Err(source) => Err(Error::KbsClient { source }),
        }
    }

    /// The resource that the client handed out.
    pub fn request_result(reply: Result<Vec<u8>, String>) -> (r: Result<Vec<u8>, Error>)
        ensures
            match reply {
                Ok(resource) => r == Ok::<Vec<u8>, Error>(resource),
                Err(source) => r == Err::<Vec<u8>, Error>(Error::GetResource { source }),
            },
    {
        match reply {
            Ok(resource) => Ok(resource),
            Err(source) => Err(Error::GetResource { source }),
        }
    }
}

/// Whether there is a client after a number of attempts to make one: once one was
/// made it stays, and without one the next request tries again.
pub open spec fn connected_after(connected: bool, attempts: Seq<bool>) -> bool
    decreases attempts.len(),
{
    if attempts.len() == 0 {
        connected
    } else {
        connected_after(connected, attempts.drop_last()) || attempts.last()
    }
}

pub proof fn lemma_one_attempt(connected: bool, made: bool)
    ensures
        connected_after(connected, seq![made]) == (connected || made),
{
    reveal_with_fuel(connected_after, 2);
}

/// One attested session serves all requests: once a client was made there always
/// is one, so that none is made again.
pub proof fn law_session_is_kept(attempts: Seq<bool>, i: int)
    requires
        0 <= i < attempts.len(),
        attempts[i],
    ensures
        connected_after(false, attempts),
    decreases attempts.len(),
{
    if i < attempts.len() - 1 {
        assert(attempts.drop_last()[i] == attempts[i]);
        law_session_is_kept(attempts.drop_last(), i);
    }
}

/// A file and the resource that it is filled with.
pub struct Credential {
    pub path: String,
    pub resource_uri: String,
}

/// Which file is filled with which resource: where a path occurs more than once,
/// its last entry counts.
pub open spec fn credential_map(credentials: Seq<Credential>) -> Map<Seq<char>, Seq<char>>
    decreases credentials.len(),
{
    if credentials.len() == 0 {
        Map::empty()
    } else {
        let last = credentials.last();
        credential_map(credentials.drop_last()).insert(last.path@, last.resource_uri@)
    }
}

/// What the hub is configured with.
pub struct HubConfig {
    pub credentials: Vec<Credential>,
    pub protected_resource_uri_prefixes: Vec<ParsedUri>,
    /// Whether measuring what is pulled is switched on.
    pub runtime_measurement: bool,
}

/// The client of the attestation agent.
#[derive(Clone, Copy, PartialEq, Eq, Debug, Structural)]
pub enum AaClient {
    /// It was not asked for yet.
    Unknown,
    /// There is no attestation agent.
    Absent,
    Connected,
}

/// The data hub.
pub struct Hub {
    credentials: Vec<Credential>,
    protected_resource_prefixes: ProtectedResourcePrefixes,
    resource_client: ResourceClient,
    runtime_measurement: bool,
    image_client: bool,
    aa_client: AaClient,
}

/// The paths of the entries differ, and they are those of `m`.
pub open spec fn lists(entries: Seq<Credential>, m: Map<Seq<char>, Seq<char>>) -> bool {
    &&& forall|i: int, j: int|
        0 <= i < j < entries.len() ==> (#[trigger] entries[i]).path@ != (
        #[trigger] entries[j]).path@
    &&& forall|i: int|
        0 <= i < entries.len() ==> m.contains_key((#[trigger] entries[i]).path@)
            && m[entries[i].path@] == entries[i].resource_uri@
    &&& forall|path: Seq<char>|
        m.contains_key(path) ==> exists|i: int|
            0 <= i < entries.len() && (#[trigger] entries[i]).path@ == path
}

/// One of the entries is for the path.
pub open spec fn has_entry(entries: Seq<Credential>, path: Seq<char>) -> bool {
    exists|i: int| 0 <= i < entries.len() && (#[trigger] entries[i]).path@ == path
}

/// Where the entry of a path stands.
fn find_entry(entries: &Vec<Credential>, path: &str) -> (r: Option<usize>)
    ensures
        match r {
            Some(i) => i < entries@.len() && entries@[i as int].path@ == path@,
            None => forall|i: int|
                0 <= i < entries@.len() ==> (#[trigger] entries@[i]).path@ != path@,
        },
{
    for i in 0..entries.len()
        invariant
            forall|j: int| 0 <= j < i ==> (#[trigger] entries@[j]).path@ != path@,
    {
        if text::same_text(entries[i].path.as_str(), path) {
            return Some(i);
        }
    }
    None
}

/// One entry for each path, with what its last entry says.
fn collect_credentials(credentials: &Vec<Credential>) -> (r: Vec<Credential>)
    ensures
        lists(r@, credential_map(credentials@)),
{
    let mut r: Vec<Credential> = Vec::new();
    assert(credentials@.take(0) =~= Seq::empty());
    for n in 0..credentials.len()
        invariant
            lists(r@, credential_map(credentials@.take(n as int))),
    {
        let path = credentials[n].path.clone();
        let resource_uri = credentials[n].resource_uri.clone();
        let ghost before = r@;
        let ghost m = credential_map(credentials@.take(n as int));
        let ghost m2 = m.insert(path@, resource_uri@);
        assert(credentials@.take(n + 1).drop_last() =~= credentials@.take(n as int));
        assert(credentials@.take(n + 1).last() == credentials@[n as int]);
        match find_entry(&r, path.as_str()) {
            Some(i) => {
                r.set(i, Credential { path, resource_uri });
                assert(forall|j: int|
                    0 <= j < before.len() ==> (#[trigger] r@[j]).path@ == before[j].path@);
                assert forall|q: Seq<char>| m2.contains_key(q) implies exists|j: int|
                    0 <= j < r@.len() && (#[trigger] r@[j]).path@ == q by {
                    if q == credentials@[n as int].path@ {
                        assert(r@[i as int].path@ == q);
                    } else {
                        let j = choose|j: int| 0 <= j < before.len() && (
                        #[trigger] before[j]).path@ == q;
                        assert(r@[j].path@ == q);
                    }
                }
            },
            None => {
                r.push(Credential { path, resource_uri });
                assert(forall|j: int| 0 <= j < before.len() ==> #[trigger] r@[j] == before[j]);
                assert forall|q: Seq<char>| m2.contains_key(q) implies exists|j: int|
                    0 <= j < r@.len() && (#[trigger] r@[j]).path@ == q by {
                    if q == credentials@[n as int].path@ {
                        assert(r@[before.len() as int].path@ == q);
                    } else {
                        let j = choose|j: int| 0 <= j < before.len() && (
                        #[trigger] before[j]).path@ == q;
                        assert(r@[j].path@ == q);
                    }
                }
            },
        }
    }
    assert(credentials@.take(credentials@.len() as int) =~= credentials@);
    r
}

impl Hub {
    /// The paths below which no resource is public.
    pub closed spec fn protected(&self) -> Seq<Seq<Seq<char>>> {
        self.protected_resource_prefixes@
    }

    /// Whether there is a client of the key broker.
    pub closed spec fn connected(&self) -> bool {
        self.resource_client.connected()
    }

    /// Whether what is pulled is measured.
    pub closed spec fn measures(&self) -> bool {
        self.runtime_measurement
    }

    /// Whether there is an image client.
    pub closed spec fn has_image_client(&self) -> bool {
        self.image_client
    }

    /// The client of the attestation agent.
    pub closed spec fn aa_client(&self) -> AaClient {
        self.aa_client
    }

    /// The entries of the credentials.
    pub closed spec fn entries(&self) -> Seq<Credential> {
        self.credentials@
    }

    /// Sets the hub up, unless a protected prefix is not valid. Nothing else is
    /// done before the prefixes are known to be valid.
    pub fn new(config: &HubConfig) -> (r: Result<Self, Error>)
        ensures
            match crate::resource::first_prefix_error(config.protected_resource_uri_prefixes@) {
                Some(error) => r matches Err(Error::InitializationFailed(message)) && message@
                    == error,
                None => r matches Ok(hub) && {
                    &&& hub.protected() == config.protected_resource_uri_prefixes@.map_values(
                        |prefix: ParsedUri| prefix.prefix_path(),
                    )
                    &&& lists(hub.entries(), credential_map(config.credentials@))
                    &&& !hub.connected()
                    &&& !hub.has_image_client()
                    &&& hub.aa_client() == AaClient::Unknown
                    &&& hub.measures() == config.runtime_measurement
                },
            },
    {
        match ProtectedResourcePrefixes::from_config(&config.protected_resource_uri_prefixes) {
            Err(e) => Err(Error::InitializationFailed(e)),
            Ok(protected_resource_prefixes) => Ok(
                Hub {
                    credentials: collect_credentials(&config.credentials),
                    protected_resource_prefixes,
                    resource_client: ResourceClient::new(),
                    runtime_measurement: config.runtime_measurement,
                    image_client: false,
                    aa_client: AaClient::Unknown,
                },
            ),
        }
    }

    /// The error of a configuration that could not be put into the environment.
    pub fn environment_error(cause: &str) -> (r: Error)
        ensures
            r matches Error::InitializationFailed(message) && message@
                == "set configuration envs: "@ + cause@,
    {
        Error::InitializationFailed(text::joined("set configuration envs: ", cause))
    }

    /// The resource that the file at a path is filled with.
    pub fn credential(&self, path: &str) -> (r: Option<&str>)
        ensures
            match r {
                Some(uri) => exists|i: int|
                    0 <= i < self.entries().len() && (#[trigger] self.entries()[i]).path@ == path@
                        && self.entries()[i].resource_uri@ == uri@,
                None => forall|i: int|
                    0 <= i < self.entries().len() ==> (#[trigger] self.entries()[i]).path@ != path@,
            },
            r is Some <==> has_entry(self.entries(), path@),
    {
        match find_entry(&self.credentials, path) {
            Some(i) => {
                assert(self.entries()[i as int].path@ == path@);
                Some(self.credentials[i].resource_uri.as_str())
            },
            None => None,
        }
    }

    /// What is to be done to get a resource for the hub itself.
    pub fn get_resource(&self, uri: &str) -> (r: ResourceAction)
        ensures
            if self.connected() {
                r matches ResourceAction::Request { uri: u } && u@ == uri@
            } else {
                r is Connect
            },
    {
        self.resource_client.get(uri)
    }

    /// What is to be done to get a resource for a workload. Where it is not public,
    /// nothing is.
    pub fn get_public_resource(&self, uri: &ParsedUri) -> (r: Result<ResourceAction, Error>)
        ensures
            match r {
                Ok(action) => {
                    &&& crate::resource::is_public(self.protected(), uri.text@, uri.resource())
                    &&& if self.connected() {
                        action matches ResourceAction::Request { uri: u } && u@ == uri.text@
                    } else {
                        action is Connect
                    }
                },
                Err(e) => e is PublicResourceDenied && !crate::resource::is_public(
                    self.protected(),
                    uri.text@,
                    uri.resource(),
                ),
            },
    {
        if !self.protected_resource_prefixes.allows(uri) {
            return Err(Error::PublicResourceDenied);
        }
        Ok(self.resource_client.get(uri.text.as_str()))
    }

    /// Keeps the client of the key broker that was made.
    pub fn connect_result(&mut self, made: Result<(), String>) -> (r: Result<(), Error>)
        ensures
            final(self).connected() == connected_after(old(self).connected(), seq![made is Ok]),
            final(self).protected() == old(self).protected(),
            final(self).entries() == old(self).entries(),
            final(self).measures() == old(self).measures(),
            final(self).has_image_client() == old(self).has_image_client(),
            final(self).aa_client() == old(self).aa_client(),
            match made {
                Ok(_) => r is Ok,
                Err(source) => r == Err::<(), Error>(Error::KbsClient { source }),
            },
    {
        self.resource_client.connect_result(made)
    }
}

impl Hub {
    pub(crate) fn image_client_made(&self) -> (r: bool)
        ensures
            r == self.has_image_client(),
    {
        self.image_client
    }

    pub(crate) fn known_aa_client(&self) -> (r: AaClient)
        ensures
            r == self.aa_client(),
    {
        self.aa_client
    }

    pub(crate) fn is_measuring(&self) -> (r: bool)
        ensures
            r == self.measures(),
    {
        self.runtime_measurement
    }

    pub(crate) fn keep_image_client(&mut self)
        ensures
            final(self).has_image_client(),
            final(self).connected() == old(self).connected(),
            final(self).protected() == old(self).protected(),
            final(self).entries() == old(self).entries(),
            final(self).measures() == old(self).measures(),
            final(self).aa_client() == old(self).aa_client(),
    {
        self.image_client = true;
    }

    pub(crate) fn keep_aa_client(&mut self, client: AaClient)
        ensures
            final(self).aa_client() == client,
            final(self).connected() == old(self).connected(),
            final(self).protected() == old(self).protected(),
            final(self).entries() == old(self).entries(),
            final(self).measures() == old(self).measures(),
            final(self).has_image_client() == old(self).has_image_client(),
    {
        self.aa_client = client;
    }
}

/// What is configured last for a path is what the hub has for it.
pub proof fn law_last_credential_counts(
    credentials: Seq<Credential>,
    entries: Seq<Credential>,
    i: int,
)
    requires
        0 <= i < credentials.len(),
        forall|j: int|
            i < j < credentials.len() ==> (#[trigger] credentials[j]).path@ != credentials[i].path@,
        lists(entries, credential_map(credentials)),
    ensures
        exists|k: int|
            0 <= k < entries.len() && (#[trigger] entries[k]).path@ == credentials[i].path@
                && entries[k].resource_uri@ == credentials[i].resource_uri@,
{
    lemma_last_entry(credentials, i);
    let path = credentials[i].path@;
    let k = choose|k: int| 0 <= k < entries.len() && (#[trigger] entries[k]).path@ == path;
    assert(entries[k].path@ == path);
}

proof fn lemma_last_entry(credentials: Seq<Credential>, i: int)
    requires
        0 <= i < credentials.len(),
        forall|j: int|
            i < j < credentials.len() ==> (#[trigger] credentials[j]).path@ != credentials[i].path@,
    ensures
        credential_map(credentials).contains_key(credentials[i].path@),
        credential_map(credentials)[credentials[i].path@] == credentials[i].resource_uri@,
    decreases credentials.len(),
{
    if i < credentials.len() - 1 {
        let before = credentials.drop_last();
        assert(before[i] == credentials[i]);
        assert forall|j: int| i < j < before.len() implies (#[trigger] before[j]).path@
            != before[i].path@ by {
            assert(before[j] == credentials[j]);
        }
        lemma_last_entry(before, i);
        assert(credentials.last() == credentials[credentials.len() - 1]);
    }
}

/// Without an attempt that succeeded there is no session, so that the next request
/// tries again.
pub proof fn law_no_session_without_success(attempts: Seq<bool>)
    requires
        forall|i: int| 0 <= i < attempts.len() ==> !attempts[i],
    ensures
        !connected_after(false, attempts),
    decreases attempts.len(),
{
    if attempts.len() > 0 {
        law_no_session_without_success(attempts.drop_last());
    }
}

/// The hub has credentials for the paths that are configured and for no others, and each
/// with what is configured last for it.
pub proof fn law_no_other_credentials(
    credentials: Seq<Credential>,
    entries: Seq<Credential>,
    k: int,
)
    requires
        lists(entries, credential_map(credentials)),
        0 <= k < entries.len(),
    ensures
        exists|i: int|
            {
                &&& 0 <= i < credentials.len()
                &&& (#[trigger] credentials[i]).path@ == entries[k].path@
                &&& credentials[i].resource_uri@ == entries[k].resource_uri@
                &&& forall|j: int|
                    i < j < credentials.len() ==> (#[trigger] credentials[j]).path@
                        != entries[k].path@
            },
        forall|l: int| 0 <= l < entries.len() && l != k ==> (#[trigger] entries[l]).path@
            != entries[k].path@,
{
    assert(credential_map(credentials).contains_key(entries[k].path@));
    let i = lemma_configured(credentials, entries[k].path@);
    assert(credentials[i].path@ == entries[k].path@);
}

proof fn lemma_configured(credentials: Seq<Credential>, path: Seq<char>) -> (i: int)
    requires
        credential_map(credentials).contains_key(path),
    ensures
        0 <= i < credentials.len(),
        credentials[i].path@ == path,
        credentials[i].resource_uri@ == credential_map(credentials)[path],
        forall|j: int| i < j < credentials.len() ==> (#[trigger] credentials[j]).path@ != path,
    decreases credentials.len(),
{
    let last = credentials.len() - 1;
    if credentials.len() == 0 {
        0
    } else if credentials[last].path@ == path {
        last
    } else {
        let before = credentials.drop_last();
        let i = lemma_configured(before, path);
        assert(before[i] == credentials[i]);
        assert forall|j: int| i < j < credentials.len() implies (
        #[trigger] credentials[j]).path@ != path by {
            if j < last {
                assert(before[j] == credentials[j]);
            }
        }
        i
    }
}

} // verus!
