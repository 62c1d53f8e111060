//! How request timeouts are chosen and carried.

use guest_components::cdh::{self, ResourceMethod};
use guest_components::image::{Ttrpc, TtrpcAction, TtrpcError};
use guest_components::kms::{aa_token_request_timeout, token_request_timeout_of, KmsError};
use guest_components::timeout::{
    kernel_image_resource_timeout, parse_nonzero_seconds, select_cdh_request_timeout,
    NonZeroSeconds, RequestTimeout, DEFAULT_CDH_TTRPC_TIMEOUT_SECS,
};
use guest_components::token::{self, AATokenProvider, TokenError, TokenMessage, TokenStep};

#[test]
fn request_context_uses_selected_timeout() {
    assert_eq!(
        cdh::request_context(RequestTimeout::from_secs(300)).timeout_nano,
        300_000_000_000
    );
}

#[test]
fn cdh_timeout_uses_kernel_image_resource_contract() {
    let (timeout, source) = select_cdh_request_timeout(
        None,
        Some("quiet agent.image_resource_timeout_secs=300 console=ttyS0"),
    );

    assert_eq!(timeout, RequestTimeout::from_secs(300));
    assert_eq!(source, "kernel");
}

#[test]
fn cdh_timeout_preserves_default_for_missing_or_invalid_kernel_value() {
    for cmdline in [
        None,
        Some("quiet"),
        Some("agent.image_resource_timeout_secs=0"),
        Some("agent.image_resource_timeout_secs=invalid"),
    ] {
        assert_eq!(
            select_cdh_request_timeout(None, cmdline),
            (
                RequestTimeout::from_secs(DEFAULT_CDH_TTRPC_TIMEOUT_SECS),
                "default"
            )
        );
    }
}

#[test]
fn cdh_timeout_uses_last_kernel_value_like_image_config() {
    let (timeout, source) = select_cdh_request_timeout(
        None,
        Some("agent.image_resource_timeout_secs=50 agent.image_resource_timeout_secs=300"),
    );

    assert_eq!(timeout, RequestTimeout::from_secs(300));
    assert_eq!(source, "kernel");
}

#[test]
fn explicit_cdh_timeout_overrides_kernel_value() {
    let explicit = NonZeroSeconds::new(120).unwrap();
    let (timeout, source) = select_cdh_request_timeout(
        Some(explicit),
        Some("agent.image_resource_timeout_secs=300"),
    );

    assert_eq!(timeout, RequestTimeout::from_secs(120));
    assert_eq!(source, "cli");
}

fn parse_cli(args: [&str; 3]) -> Result<Option<NonZeroSeconds>, clap::Error> {
    let matches = clap::Command::new("api-server-rest")
        .arg(
            clap::Arg::new("cdh_timeout_secs")
                .long("cdh_timeout_secs")
                .value_parser(parse_nonzero_seconds),
        )
        .try_get_matches_from(args)?;
    Ok(matches
        .get_one::<NonZeroSeconds>("cdh_timeout_secs")
        .copied())
}

#[test]
fn cdh_timeout_cli_accepts_only_nonzero_seconds() {
    let parsed = parse_cli(["api-server-rest", "--cdh_timeout_secs", "120"])
        .expect("nonzero timeout should parse");
    assert_eq!(parsed, NonZeroSeconds::new(120));

    assert!(parse_cli(["api-server-rest", "--cdh_timeout_secs", "0"]).is_err());
}

#[test]
fn token_request_context_uses_selected_timeout() {
    assert_eq!(
        token::request_context(RequestTimeout::from_secs(300)).timeout_nano,
        300_000_000_000
    );
}

#[test]
fn default_token_request_timeout_remains_compatible() {
    assert_eq!(
        token::request_context(token::default_token_request_timeout()).timeout_nano,
        50_000_000_000
    );
}

#[test]
fn token_request_timeout_defaults_to_fifty_seconds() {
    assert!(matches!(
        aa_token_request_timeout(None),
        Ok(timeout) if timeout == RequestTimeout::from_secs(50)
    ));
}

#[test]
fn token_request_timeout_accepts_trusted_override() {
    assert!(matches!(
        aa_token_request_timeout(Some("300")),
        Ok(timeout) if timeout == RequestTimeout::from_secs(300)
    ));
}

#[test]
fn token_request_timeout_rejects_zero_and_malformed_values() {
    assert!(aa_token_request_timeout(Some("0")).is_err());
    assert!(aa_token_request_timeout(Some("invalid")).is_err());
}

#[test]
fn request_context_uses_configured_timeout() {
    let timeout = RequestTimeout::from_secs(300);
    let client = Ttrpc::new(timeout);

    assert_eq!(client.request_context().timeout_nano, 300_000_000_000);
}

#[test]
fn request_context_preserves_default_timeout() {
    assert_eq!(
        Ttrpc::default().request_context().timeout_nano,
        50_000_000_000
    );
}

#[test]
fn rejected_token_timeout_names_the_variable_and_the_cause() {
    let message = match aa_token_request_timeout(Some("12x")) {
        Err(KmsError::KbsClientError(message)) => message,
        Ok(_) => panic!("a malformed timeout was accepted"),
    };
    assert_eq!(
        message,
        "invalid AA_TOKEN_REQUEST_TIMEOUT_SECS: invalid digit found in string"
    );
    let message = match token_request_timeout_of(Err("cause".to_string())) {
        Err(KmsError::KbsClientError(message)) => message,
        Ok(_) => panic!("a failed read was accepted"),
    };
    assert_eq!(message, "invalid AA_TOKEN_REQUEST_TIMEOUT_SECS: cause");
}

#[test]
fn seconds_are_read_as_a_numeral() {
    assert_eq!(parse_nonzero_seconds("1"), Ok(NonZeroSeconds::new(1).unwrap()));
    assert_eq!(parse_nonzero_seconds("+7"), Ok(NonZeroSeconds::new(7).unwrap()));
    assert_eq!(
        parse_nonzero_seconds("0042"),
        Ok(NonZeroSeconds::new(42).unwrap())
    );
    assert_eq!(
        parse_nonzero_seconds("4294967295"),
        Ok(NonZeroSeconds::new(u32::MAX).unwrap())
    );
    for refused in ["", "+", "-1", "4294967296", " 5", "5 ", "1_000", "0", "+0"] {
        assert!(parse_nonzero_seconds(refused).is_err(), "accepted {refused:?}");
    }
}

#[test]
fn last_kernel_value_counts_even_where_it_is_invalid() {
    assert_eq!(
        kernel_image_resource_timeout(
            "agent.image_resource_timeout_secs=50 agent.image_resource_timeout_secs=x"
        ),
        None
    );
    assert_eq!(
        kernel_image_resource_timeout(
            "a\tagent.image_resource_timeout_secs=9\n\x0Cagent.image_resource_timeout_secs2=8\r"
        ),
        NonZeroSeconds::new(9)
    );
    for line in [
        "agent.image_resource_timeout_secs=9",
        "a\x0Cagent.image_resource_timeout_secs=9",
        "agent.image_resource_timeout_secs=9\rb",
    ] {
        assert_eq!(kernel_image_resource_timeout(line), NonZeroSeconds::new(9));
    }
    assert_eq!(
        kernel_image_resource_timeout("agent.image_resource_timeout_secs"),
        None
    );
    assert_eq!(
        kernel_image_resource_timeout("agent.image_resource_timeout_secs=5=6"),
        None
    );
}

#[test]
fn contexts_keep_the_low_bits_of_a_timeout() {
    assert_eq!(
        cdh::request_context(RequestTimeout::new(1, 5)).timeout_nano,
        1_000_000_005
    );
    let longest = cdh::request_context(RequestTimeout::from_secs(u32::MAX as u64));
    assert_eq!(longest.timeout_nano, 4_294_967_295_000_000_000);
    let wrapped = cdh::request_context(RequestTimeout::from_secs(9_223_372_037));
    assert_eq!(wrapped.timeout_nano, -9_223_372_036_709_551_616);
    assert_eq!(RequestTimeout::new(3, 999_999_999).as_secs(), 3);
}

#[test]
fn clients_make_their_requests() {
    let client = cdh::CDHClient::new("unix:///cdh.sock", RequestTimeout::from_secs(7));
    assert_eq!(client.cdh_addr(), "unix:///cdh.sock");
    let request = client.get_resource("/default/key/1");
    assert_eq!(request.resource_path, "kbs:///default/key/1");
    assert_eq!(request.method, ResourceMethod::Public);
    assert_eq!(client.method(), ResourceMethod::Public);
    assert_eq!(request.context.timeout_nano, 7_000_000_000);

    let mut image = Ttrpc::default();
    assert!(matches!(image.get_resource("kbs:///a/b/c"), TtrpcAction::Connect));
    match image.connect_result(Err("refused".to_string())) {
        Err(error) => assert_eq!(error.chain(), ["refused"]),
        Ok(()) => panic!("there is no connection"),
    }
    assert!(matches!(image.get_resource("kbs:///a/b/c"), TtrpcAction::Connect));
    assert!(image.connect_result(Ok(())).is_ok());
    assert_eq!(image.method(), ResourceMethod::Private);
    match image.get_resource("kbs:///a/b/c") {
        TtrpcAction::Request(request) => {
            assert_eq!(request.resource_path, "kbs:///a/b/c");
            assert_eq!(request.method, ResourceMethod::Private);
            assert_eq!(request.context.timeout_nano, 50_000_000_000);
        }
        TtrpcAction::Connect => panic!("the connection was not kept"),
    }
    assert!(matches!(Ttrpc::request_result(Ok(vec![1, 2])), Ok(resource) if resource == [1, 2]));
    match Ttrpc::request_result(Err("late".to_string())) {
        Err(error) => {
            assert!(matches!(error, TtrpcError::Request { .. }));
            assert_eq!(error.chain(), ["ttrpc request error", "late"]);
        }
        Ok(_) => panic!("there is no resource"),
    }
}

#[test]
fn features_select_the_clients() {
    let both = cdh::parse_features("all").unwrap();
    assert!(both.attestation && both.resource);
    let resource = cdh::parse_features("resource").unwrap();
    assert!(!resource.attestation && resource.resource);
    let attestation = cdh::parse_features("attestation").unwrap();
    assert!(attestation.attestation && !attestation.resource);
    assert!(cdh::parse_features("resources").is_none());
}

#[test]
fn token_providers_and_their_errors() {
    let provider = AATokenProvider::new();
    assert_eq!(
        provider.aa_socket(),
        "unix:///run/confidential-containers/attestation-agent/attestation-agent.sock"
    );
    let request = provider.get_token();
    assert_eq!(request.token_type, "kbs");
    assert_eq!(request.context.timeout_nano, 50_000_000_000);
    let provider = AATokenProvider::new_with_socket("unix:///x");
    assert_eq!(provider.aa_socket(), "unix:///x");
    let provider =
        AATokenProvider::new_with_socket_and_timeout("unix:///y", RequestTimeout::from_secs(3));
    assert_eq!(provider.get_token().context.timeout_nano, 3_000_000_000);

    let mut steps = token::get_token_steps();
    for step in [
        TokenStep::Call,
        TokenStep::ReadReply,
        TokenStep::ReadToken,
        TokenStep::ReadKeyPair,
    ] {
        assert_eq!(steps.next(), Some(step));
        steps.record(true);
    }
    assert!(steps.is_complete());
    assert_eq!(steps.next(), None);

    let message = TokenMessage {
        token: "a token".to_string(),
        tee_keypair: "a key pair".to_string(),
    };
    assert_eq!(message.text_for(TokenStep::ReadToken), Some("a token"));
    assert_eq!(message.text_for(TokenStep::ReadKeyPair), Some("a key pair"));
    assert_eq!(message.text_for(TokenStep::ReadReply), None);

    for (step, text) in [
        (TokenStep::Connect, "ttrpc connect failed x"),
        (TokenStep::Call, "cal ttrpc failed: x"),
        (TokenStep::ReadReply, "deserialize attestation-agent reply failed: x"),
        (TokenStep::ReadToken, "deserialize token failed: x"),
        (TokenStep::ReadKeyPair, "deserialize tee keypair failed: x"),
    ] {
        let TokenError::AATokenProvider(message) = token::token_step_error(step, "x");
        assert_eq!(message, text);
    }
}
