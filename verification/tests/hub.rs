//! The resource guard, and the order in which the hub works.

use guest_components::hub::{
    secure_volume_resource_error, AaClient, Credential, Error, Hub, HubConfig, ResourceAction,
    ResourceClient,
};
use guest_components::kms::{AaKbcParams, KbcClient, KmsError};
use guest_components::pull::{aa_socket_path, PullReply, PullStep, RuntimeMeasurementResult};
use guest_components::resource::{ParsedUri, ProtectedResourcePrefixes, ResourceUri};
use guest_components::timeout::RequestTimeout;
use guest_components::volume::{VolumeActivation, VolumeReply, VolumeStep};

/// A URI of the default plugin, written as it stands.
fn uri(text: &str, kbs_address: &str, path: &[&str], query: Option<&str>) -> ParsedUri {
    ParsedUri {
        text: text.to_string(),
        resource: Some(ResourceUri {
            default_plugin: true,
            kbs_address: kbs_address.to_string(),
            path: path.iter().map(|s| s.to_string()).collect(),
            query: query.map(|s| s.to_string()),
            whole_uri: text.to_string(),
        }),
    }
}

fn volume_keys() -> ParsedUri {
    uri(
        "kbs:///default/volume-keys/",
        "",
        &["default", "volume-keys", ""],
        None,
    )
}

#[test]
fn protected_resource_prefixes_compare_canonical_path_segments() {
    let prefixes = ProtectedResourcePrefixes::from_config(&vec![volume_keys()]).unwrap();

    assert!(!prefixes.allows(&uri(
        "kbs:///default/volume-keys/workspace-1",
        "",
        &["default", "volume-keys", "workspace-1"],
        None,
    )));
    assert!(prefixes.allows(&uri(
        "kbs:///default/volume-keys-backup/workspace-1",
        "",
        &["default", "volume-keys-backup", "workspace-1"],
        None,
    )));
    assert!(prefixes.allows(&uri(
        "kbs:///default/manifests/workspace-1",
        "",
        &["default", "manifests", "workspace-1"],
        None,
    )));
    assert!(!prefixes.allows(&uri(
        "kbs://remote.example/default/manifests/workspace-1",
        "remote.example",
        &["default", "manifests", "workspace-1"],
        None,
    )));
    assert!(!prefixes.allows(&ParsedUri {
        text: "not-a-resource-uri".to_string(),
        resource: None,
    }));
}

#[test]
fn protected_resource_prefixes_reject_ambiguous_configuration() {
    for prefix in [
        uri(
            "kbs:///default/volume-keys",
            "",
            &["default", "volume-keys"],
            None,
        ),
        uri("kbs:///default//", "", &["default", "", ""], None),
        uri(
            "kbs://remote.example/default/volume-keys/",
            "remote.example",
            &["default", "volume-keys", ""],
            None,
        ),
        uri(
            "kbs:///default/volume-keys/?query=value",
            "",
            &["default", "volume-keys", ""],
            Some("query=value"),
        ),
    ] {
        let text = prefix.text.clone();
        assert!(
            ProtectedResourcePrefixes::from_config(&vec![prefix]).is_err(),
            "accepted ambiguous protected prefix {text}"
        );
    }
}

#[test]
fn prefix_errors_say_what_is_wrong_with_the_first_bad_prefix() {
    let message = "protected resource prefix must be a canonical local, query-free kbs URI ending in /";
    let mut foreign = volume_keys();
    if let Some(resource) = foreign.resource.as_mut() {
        resource.default_plugin = false;
    }
    let mut rewritten = volume_keys();
    if let Some(resource) = rewritten.resource.as_mut() {
        resource.whole_uri = "kbs:///default/other/".to_string();
    }
    let none = ParsedUri {
        text: "x".to_string(),
        resource: None,
    };
    for (list, expected) in [
        (vec![volume_keys(), foreign], message),
        (vec![rewritten], message),
        (vec![uri("kbs:///", "", &[""], None)], message),
        (
            vec![volume_keys(), none],
            "protected resource prefix is not a KBS URI",
        ),
    ] {
        match ProtectedResourcePrefixes::from_config(&list) {
            Err(error) => assert_eq!(error, expected),
            Ok(_) => panic!("a bad prefix was accepted"),
        }
    }
}

#[test]
fn guard_denies_the_prefix_itself_and_paths_with_empty_segments() {
    let prefixes = ProtectedResourcePrefixes::from_config(&vec![volume_keys()]).unwrap();
    assert!(!prefixes.allows(&uri(
        "kbs:///default/volume-keys",
        "",
        &["default", "volume-keys"],
        None
    )));
    assert!(!prefixes.allows(&uri("kbs:///other//x", "", &["other", "", "x"], None)));
    assert!(prefixes.allows(&uri("kbs:///default", "", &["default"], None)));
    let open = ProtectedResourcePrefixes::default();
    assert!(open.allows(&uri(
        "kbs:///default/volume-keys/workspace-1",
        "",
        &["default", "volume-keys", "workspace-1"],
        None,
    )));
}

/// Stands for the key broker: each request is answered with its number.
struct StatefulGetter {
    calls: usize,
}

impl StatefulGetter {
    fn get_secret(&mut self) -> Result<Vec<u8>, String> {
        self.calls += 1;
        Ok(self.calls.to_string().into_bytes())
    }
}

fn perform(action: ResourceAction, getter: &mut StatefulGetter) -> Vec<u8> {
    match action {
        ResourceAction::Connect => panic!("a second session was asked for"),
        ResourceAction::Request { .. } => match ResourceClient::request_result(getter.get_secret()) {
            Ok(resource) => resource,
            Err(_) => panic!("the request failed"),
        },
    }
}

#[test]
fn resource_client_reuses_one_attested_session() {
    let mut getter = StatefulGetter { calls: 0 };
    let client = ResourceClient::with_client();

    assert_eq!(
        perform(client.get("kbs:///default/manifests/one"), &mut getter),
        b"1"
    );
    assert_eq!(
        perform(client.get("kbs:///default/keys/one"), &mut getter),
        b"2"
    );
    assert_eq!(getter.calls, 2);
}

#[test]
fn resource_client_connects_once() {
    let mut client = ResourceClient::new();
    assert!(matches!(client.get("kbs:///a/b/c"), ResourceAction::Connect));
    assert!(matches!(
        client.connect_result(Err("down".to_string())),
        Err(Error::KbsClient { source }) if source == "down"
    ));
    assert!(matches!(client.get("kbs:///a/b/c"), ResourceAction::Connect));
    assert!(client.connect_result(Ok(())).is_ok());
    assert!(matches!(
        client.get("kbs:///a/b/c"),
        ResourceAction::Request { uri } if uri == "kbs:///a/b/c"
    ));
    assert!(client.connect_result(Err("late".to_string())).is_err());
    assert!(matches!(
        client.get("kbs:///d/e/f"),
        ResourceAction::Request { uri } if uri == "kbs:///d/e/f"
    ));
    assert!(matches!(
        ResourceClient::request_result(Err("gone".to_string())),
        Err(Error::GetResource { source }) if source == "gone"
    ));
}

fn hub(runtime_measurement: bool) -> Hub {
    let config = HubConfig {
        credentials: vec![],
        protected_resource_uri_prefixes: vec![volume_keys()],
        runtime_measurement,
    };
    match Hub::new(&config) {
        Ok(hub) => hub,
        Err(_) => panic!("the configuration was refused"),
    }
}

#[test]
fn public_resource_guard_blocks_keys_without_affecting_internal_reads() {
    let mut getter = StatefulGetter { calls: 0 };
    let mut hub = hub(true);
    assert!(hub.connect_result(Ok(())).is_ok());

    let key_uri = uri(
        "kbs:///default/volume-keys/workspace-1",
        "",
        &["default", "volume-keys", "workspace-1"],
        None,
    );
    assert!(matches!(
        hub.get_public_resource(&key_uri),
        Err(Error::PublicResourceDenied)
    ));
    assert_eq!(getter.calls, 0);

    assert_eq!(
        perform(
            hub.get_resource("kbs:///default/volume-keys/workspace-1"),
            &mut getter
        ),
        b"1"
    );
    assert_eq!(getter.calls, 1);
    let manifest = uri(
        "kbs:///default/manifests/workspace-1",
        "",
        &["default", "manifests", "workspace-1"],
        None,
    );
    assert!(matches!(
        hub.get_public_resource(&manifest),
        Ok(ResourceAction::Request { uri }) if uri == "kbs:///default/manifests/workspace-1"
    ));
}

#[test]
fn hub_keeps_the_last_credential_of_a_path() {
    let credential = |path: &str, resource_uri: &str| Credential {
        path: path.to_string(),
        resource_uri: resource_uri.to_string(),
    };
    let config = HubConfig {
        credentials: vec![
            credential("/a", "kbs:///1"),
            credential("/b", "kbs:///2"),
            credential("/a", "kbs:///3"),
        ],
        protected_resource_uri_prefixes: vec![],
        runtime_measurement: false,
    };
    let hub = match Hub::new(&config) {
        Ok(hub) => hub,
        Err(_) => panic!("the configuration was refused"),
    };
    assert_eq!(hub.credential("/a"), Some("kbs:///3"));
    assert_eq!(hub.credential("/b"), Some("kbs:///2"));
    assert_eq!(hub.credential("/c"), None);
}

#[test]
fn hub_refuses_a_bad_prefix_and_a_bad_environment() {
    let config = HubConfig {
        credentials: vec![],
        protected_resource_uri_prefixes: vec![ParsedUri {
            text: "x".to_string(),
            resource: None,
        }],
        runtime_measurement: false,
    };
    assert!(matches!(
        Hub::new(&config),
        Err(Error::InitializationFailed(message))
            if message == "protected resource prefix is not a KBS URI"
    ));
    assert!(matches!(
        Hub::environment_error("denied"),
        Error::InitializationFailed(message) if message == "set configuration envs: denied"
    ));
}

#[test]
fn resource_errors_of_a_volume_name_stage_and_reason() {
    for (source, expected) in [
        (
            Error::KbsClient {
                source: "a".to_string(),
            },
            "client_initialization",
        ),
        (
            Error::GetResource {
                source: "b".to_string(),
            },
            "resource_request",
        ),
        (Error::PublicResourceDenied, "unexpected"),
    ] {
        match secure_volume_resource_error("key_fetch", source) {
            Error::SecureVolumeResource { stage, reason, .. } => {
                assert_eq!(stage, "key_fetch");
                assert_eq!(reason, expected);
            }
            _ => panic!("another error was made"),
        }
    }
}

#[test]
fn volume_is_activated_step_by_step() {
    let hub = hub(false);
    let mut activation: VolumeActivation<&str, &str, u32> =
        hub.activate_volume("8:16", "kbs:///default/manifests/abc", "readWrite");
    assert_eq!(activation.device_id(), "8:16");
    assert_eq!(activation.manifest_uri(), "kbs:///default/manifests/abc");
    assert_eq!(*activation.requested_access(), "readWrite");
    assert_eq!(activation.next_step(), Some(VolumeStep::ValidateUri));
    assert_eq!(activation.fetch_uri(), None);
    activation.report(VolumeReply::Done);
    assert_eq!(activation.next_step(), Some(VolumeStep::FetchManifest));
    assert_eq!(activation.fetch_uri(), Some("kbs:///default/manifests/abc"));
    assert_eq!(activation.manifest_to_parse(), None);
    activation.report(VolumeReply::Done);
    assert_eq!(activation.next_step(), Some(VolumeStep::FetchManifest));
    activation.report(VolumeReply::Fetched {
        resource: b"manifest".to_vec(),
    });
    assert_eq!(activation.next_step(), Some(VolumeStep::ParseManifest));
    assert_eq!(activation.manifest_to_parse(), Some(&b"manifest"[..]));
    assert_eq!(activation.manifest(), None);
    activation.report(VolumeReply::Manifest {
        manifest: "parsed",
        key_uri: "kbs:///default/volume-keys/1".to_string(),
    });
    assert_eq!(activation.next_step(), Some(VolumeStep::CheckAccess));
    assert_eq!(activation.manifest(), Some(&"parsed"));
    activation.report(VolumeReply::Done);
    assert_eq!(activation.next_step(), Some(VolumeStep::FetchKey));
    assert_eq!(activation.fetch_uri(), Some("kbs:///default/volume-keys/1"));
    activation.report(VolumeReply::Fetched {
        resource: vec![7; 32],
    });
    assert_eq!(activation.next_step(), Some(VolumeStep::VerifyKey));
    assert_eq!(activation.take_key(), None);
    assert_eq!(activation.key_to_verify(), Some(&[7u8; 32][..]));
    activation.report(VolumeReply::Fetched {
        resource: vec![8; 32],
    });
    assert_eq!(activation.key_to_verify(), Some(&[7u8; 32][..]));
    activation.report(VolumeReply::Done);
    assert_eq!(activation.next_step(), Some(VolumeStep::Activate));
    assert_eq!(activation.key_to_verify(), None);
    assert_eq!(activation.manifest(), Some(&"parsed"));
    assert_eq!(activation.take_key(), Some(vec![7; 32]));
    assert_eq!(activation.take_key(), None);
    activation.report(VolumeReply::Done);
    assert_eq!(activation.next_step(), Some(VolumeStep::Activate));
    activation.report(VolumeReply::Activated { activation: 42 });
    assert_eq!(activation.next_step(), None);
    assert!(matches!(activation.finish(), Some(Ok(42))));
}

#[test]
fn volume_activation_ends_with_the_first_failure() {
    let hub = hub(false);
    let start = || -> VolumeActivation<(), (), ()> { hub.activate_volume("8:16", "kbs:///m", ()) };
    let mut activation = start();
    activation.report(VolumeReply::Done);
    activation.report(VolumeReply::Failed {
        error: Error::GetResource {
            source: "gone".to_string(),
        },
    });
    assert_eq!(activation.next_step(), None);
    activation.report(VolumeReply::Done);
    assert_eq!(activation.next_step(), None);
    assert!(matches!(
        activation.finish(),
        Some(Err(Error::SecureVolumeResource {
            stage: "manifest_fetch",
            reason: "resource_request",
            ..
        }))
    ));

    let mut activation = start();
    activation.report(VolumeReply::Done);
    activation.report(VolumeReply::Fetched { resource: vec![] });
    activation.report(VolumeReply::Manifest {
        manifest: (),
        key_uri: "k".to_string(),
    });
    activation.report(VolumeReply::Done);
    activation.report(VolumeReply::Failed {
        error: Error::KbsClient {
            source: "down".to_string(),
        },
    });
    assert_eq!(activation.take_key(), None);
    assert!(matches!(
        activation.finish(),
        Some(Err(Error::SecureVolumeResource {
            stage: "key_fetch",
            reason: "client_initialization",
            ..
        }))
    ));

    let mut activation = start();
    activation.report(VolumeReply::Failed {
        error: Error::SecureVolume {
            source: "bad uri".to_string(),
        },
    });
    assert!(matches!(
        activation.finish(),
        Some(Err(Error::SecureVolume { source })) if source == "bad uri"
    ));
    assert!(start().finish().is_none());
}

fn pulled(digest: &str) -> PullReply {
    PullReply::Pulled {
        digest: digest.to_string(),
    }
}

#[test]
fn pulled_image_is_measured_and_its_digest_handed_out() {
    let mut hub = hub(true);
    let mut pull = hub.pull_image("docker.io/busybox", "/bundle");
    assert_eq!(pull.next_step(), Some(PullStep::MakeImageClient));
    assert!(pull.event().is_none());
    assert_eq!(pull.image_url(), "docker.io/busybox");
    assert_eq!(pull.bundle_path(), "/bundle");
    hub.report_pull(&mut pull, PullReply::Made);
    assert_eq!(pull.next_step(), Some(PullStep::Pull));
    hub.report_pull(&mut pull, pulled("sha256:abc"));
    assert_eq!(pull.next_step(), Some(PullStep::ConnectAa));
    hub.report_pull(&mut pull, PullReply::Made);
    assert_eq!(pull.next_step(), Some(PullStep::Extend));
    let event = pull.event().unwrap();
    assert_eq!(event.domain, "github.com/confidential-containers");
    assert_eq!(event.operation, "PullImage");
    assert_eq!(
        event.content,
        r#"{"image":"docker.io/busybox", "digest":"sha256:abc"}"#
    );
    assert_eq!(event.context.timeout_nano, 10_000_000_000);
    hub.report_pull(
        &mut pull,
        PullReply::Measured(RuntimeMeasurementResult::NotEnabled),
    );
    assert_eq!(pull.next_step(), None);
    assert!(matches!(pull.finish(), Some(Ok(digest)) if digest == "sha256:abc"));

    let mut second = hub.pull_image("docker.io/alpine", "/bundle");
    assert_eq!(second.next_step(), Some(PullStep::Pull));
    hub.report_pull(&mut second, pulled("sha256:def"));
    assert_eq!(second.next_step(), Some(PullStep::Extend));
    hub.report_pull(
        &mut second,
        PullReply::UnknownResult {
            cause: "7".to_string(),
        },
    );
    assert!(matches!(
        second.finish(),
        Some(Err(Error::AttestationAgentClientError { source }))
            if source == "failed to get runtime measurement result: 7"
    ));
}

#[test]
fn pull_without_an_agent_is_not_measured() {
    let mut hub = hub(true);
    let mut pull = hub.pull_image("a", "/bundle");
    hub.report_pull(&mut pull, PullReply::Made);
    hub.report_pull(&mut pull, pulled("d1"));
    hub.report_pull(&mut pull, PullReply::NoAgent);
    assert!(matches!(pull.finish(), Some(Ok(digest)) if digest == "d1"));

    let mut second = hub.pull_image("b", "/bundle");
    hub.report_pull(&mut second, pulled("d2"));
    assert_eq!(second.next_step(), None);
    assert!(matches!(second.finish(), Some(Ok(digest)) if digest == "d2"));
    assert_ne!(AaClient::Absent, AaClient::Connected);
}

#[test]
fn pull_failures_are_told_apart() {
    let failed = || PullReply::Failed {
        cause: "x".to_string(),
    };
    let mut hub = hub(true);
    let mut pull = hub.pull_image("a", "/bundle");
    hub.report_pull(&mut pull, failed());
    assert!(matches!(pull.finish(), Some(Err(Error::Image { source })) if source == "x"));

    let mut pull = hub.pull_image("a", "/bundle");
    assert_eq!(pull.next_step(), Some(PullStep::MakeImageClient));
    hub.report_pull(&mut pull, PullReply::Made);
    hub.report_pull(&mut pull, pulled("d"));
    hub.report_pull(&mut pull, failed());
    assert!(matches!(
        pull.finish(),
        Some(Err(Error::AttestationAgentClientError { source }))
            if source == "failed to connect to attestation agent: x"
    ));

    let mut pull = hub.pull_image("a", "/bundle");
    hub.report_pull(&mut pull, pulled("d"));
    assert_eq!(pull.next_step(), Some(PullStep::ConnectAa));
    hub.report_pull(&mut pull, PullReply::Made);
    hub.report_pull(&mut pull, failed());
    assert!(matches!(
        pull.finish(),
        Some(Err(Error::AttestationAgentClientError { source }))
            if source == "failed to extend runtime measurement: x"
    ));
}

#[test]
fn socket_address_is_reduced_to_its_path() {
    assert_eq!(aa_socket_path("unix:///run/aa.sock"), "/run/aa.sock");
    assert_eq!(aa_socket_path("/run/aa.sock"), "/run/aa.sock");
    assert_eq!(aa_socket_path("unix://unix://x"), "unix://x");
}

fn params(kbc: &str) -> Result<AaKbcParams, String> {
    Ok(AaKbcParams {
        kbc: kbc.to_string(),
        uri: "http://kbs".to_string(),
    })
}

fn kms_message(result: Result<KbcClient, KmsError>) -> String {
    match result {
        Err(KmsError::KbsClientError(message)) => message,
        Ok(_) => panic!("a client was chosen"),
    }
}

#[test]
fn kbc_client_is_chosen_by_name() {
    match KbcClient::new(params("cc_kbc"), true, Some("300")) {
        Ok(KbcClient::Cc {
            uri,
            request_timeout,
        }) => {
            assert_eq!(uri, "http://kbs");
            assert_eq!(request_timeout, RequestTimeout::from_secs(300));
        }
        _ => panic!("another client was chosen"),
    }
    assert!(matches!(
        KbcClient::new(params("offline_fs_kbc"), true, Some("0")),
        Ok(KbcClient::OfflineFs)
    ));
    assert_eq!(
        kms_message(KbcClient::new(params("cc_kbc"), false, None)),
        "unknown kbc name cc_kbc, only support `cc_kbc`(feature `kbs`) and `offline_fs_kbc`."
    );
    assert_eq!(
        kms_message(KbcClient::new(Err("oops".to_string()), true, None)),
        "Failed to parse aa_kbc_params: oops"
    );
    assert!(KbcClient::new(params("cc_kbc"), true, Some("0")).is_err());
}

#[test]
fn kbc_client_refuses_what_is_no_resource() {
    let client = KbcClient::OfflineFs;
    assert!(matches!(
        client.get_secret("nonsense", None),
        Err(KmsError::KbsClientError(message)) if message == "illegal kbs resource uri: nonsense"
    ));
    let resource = volume_keys().resource;
    assert!(matches!(
        client.get_secret("kbs:///default/volume-keys/", resource),
        Ok(resource) if resource.path.len() == 3
    ));
}

#[test]
fn more_prefixes_deny_more() {
    let manifests = uri("kbs:///default/manifests/", "", &["default", "manifests", ""], None);
    let one = ProtectedResourcePrefixes::from_config(&vec![volume_keys()]).unwrap();
    let two = ProtectedResourcePrefixes::from_config(&vec![volume_keys(), manifests]).unwrap();
    let manifest = uri(
        "kbs:///default/manifests/1",
        "",
        &["default", "manifests", "1"],
        None,
    );
    let key = uri(
        "kbs:///default/volume-keys/1",
        "",
        &["default", "volume-keys", "1"],
        None,
    );
    let swapped = ProtectedResourcePrefixes::from_config(&vec![
        uri("kbs:///default/manifests/", "", &["default", "manifests", ""], None),
        volume_keys(),
    ])
    .unwrap();
    assert!(!swapped.allows(&manifest) && !swapped.allows(&key));
    assert!(one.allows(&manifest) && !two.allows(&manifest));
    assert!(!one.allows(&key) && !two.allows(&key));
}
