use bootcfg::config::{
    open_transactional_channel, operator_address, validate, Config, EnvInput,
};
use bootcfg::errors::{ConfigError, ForkParam, RequiredVar};
use bootcfg::signer::{authorize, build_signer};
use ethers::signers::{LocalWallet, Signer};

// A well-known test private key and the account address derived from it.
const TEST_KEY: &str = "ac0974bec39a17e36ba4a6b4d238ff944bacb478cbed5efcae784d7bf4f2ff80";

fn test_key_address() -> Vec<u8> {
    vec![
        0xf3, 0x9f, 0xd6, 0xe5, 0x1a, 0xad, 0x88, 0xf6, 0xf4, 0xce, 0x6a, 0xb8, 0x82, 0x72, 0x79,
        0xcf, 0xff, 0xb9, 0x22, 0x66,
    ]
}

fn full_env() -> EnvInput {
    EnvInput {
        wss: Some("ws://mock:8546".to_string()),
        http: Some("http://mock:8545".to_string()),
        private_key: Some(TEST_KEY.to_string()),
        fork_port: None,
        fork_chain_id: None,
    }
}

#[test]
fn missing_wss_fails_before_anything_else() {
    let mut env = full_env();
    env.wss = None;
    // every other input present and well-formed: the outcome must not change
    let r = validate(env);
    assert!(matches!(
        r,
        Err(ConfigError::MissingConfiguration(RequiredVar::Wss))
    ));
}

#[test]
fn missing_http_and_missing_key_are_reported_in_order() {
    let mut env = full_env();
    env.http = None;
    assert!(matches!(
        validate(env),
        Err(ConfigError::MissingConfiguration(RequiredVar::Http))
    ));
    let mut env = full_env();
    env.private_key = None;
    assert!(matches!(
        validate(env),
        Err(ConfigError::MissingConfiguration(RequiredVar::PrivateKey))
    ));
    let mut env = full_env();
    env.wss = None;
    env.http = None;
    assert!(matches!(
        validate(env),
        Err(ConfigError::MissingConfiguration(RequiredVar::Wss))
    ));
}

#[test]
fn complete_environment_validates() {
    let plan = validate(full_env()).unwrap();
    assert_eq!(plan.wss, "ws://mock:8546");
    assert_eq!(plan.http, "http://mock:8545");
    assert_eq!(plan.private_key, TEST_KEY);
    assert_eq!(plan.fork_port, None);
    assert_eq!(plan.fork_chain_id, None);
}

#[test]
fn transactional_channel_opens_on_a_well_formed_address() {
    assert!(open_transactional_channel(&"http://mock:8545".to_string()).is_ok());
    assert!(matches!(
        open_transactional_channel(&"notanurl".to_string()),
        Err(ConfigError::ConnectionFailure(_))
    ));
}

#[test]
fn signer_binds_the_observed_chain_id() {
    let signer = build_signer(&TEST_KEY.to_string(), 1337).unwrap();
    assert_eq!(signer.chain_id, 1337);
    // read back through the outside signer itself
    assert_eq!(signer.wallet_chain_id(), 1337);
    assert_eq!(signer.wallet_address(), test_key_address());
    // cross-check the address against the outside crate's own parser
    let wallet: LocalWallet = TEST_KEY.parse().unwrap();
    assert_eq!(wallet.address().as_bytes().to_vec(), test_key_address());
}

#[test]
fn malformed_keys_fail_to_parse() {
    // wrong length
    assert!(matches!(
        build_signer(&"abc123".to_string(), 1),
        Err(ConfigError::SigningKeyParseFailure(_))
    ));
    // right length, not hex
    let bad = "z".repeat(64);
    assert!(matches!(
        build_signer(&bad, 1),
        Err(ConfigError::SigningKeyParseFailure(_))
    ));
    // right shape, but the zero scalar is not a valid key
    let zero = "0".repeat(64);
    assert!(matches!(
        build_signer(&zero, 1),
        Err(ConfigError::SigningKeyParseFailure(_))
    ));
    // a prefixed key parses: the wallet parser drops "0X" and the hex
    // decoder drops "0x"
    let upper = format!("0X{}", TEST_KEY);
    assert!(build_signer(&upper, 1).is_ok());
    let lower = format!("0x{}", TEST_KEY);
    assert!(build_signer(&lower, 1).is_ok());
    // an odd-length input is refused before the decoder's prefix is dropped
    let odd = format!("0x{}", &TEST_KEY[..63]);
    assert!(matches!(
        build_signer(&odd, 1),
        Err(ConfigError::SigningKeyParseFailure(_))
    ));
}

#[test]
fn authorization_keeps_the_signer_chain_id() {
    let transactional = open_transactional_channel(&"http://mock:8545".to_string()).unwrap();
    let signer = build_signer(&TEST_KEY.to_string(), 7).unwrap();
    let authorized = authorize(transactional, signer);
    assert_eq!(authorized.chain_id, 7);
    assert_eq!(authorized.signer_chain_id(), 7);
}

#[test]
fn operator_address_is_the_compiled_in_constant() {
    let a = operator_address();
    assert_eq!(
        a.bytes,
        vec![
            0x41, 0x62, 0xa3, 0x31, 0x6f, 0xb4, 0x6e, 0x2c, 0x9e, 0x1c, 0xed, 0xf4, 0x59, 0xc4,
            0x2f, 0x66, 0x9d, 0xca, 0xbc, 0x3e
        ]
    );
}

#[test]
fn full_context_scenario() {
    // WSS and HTTP reachable, key valid, chain id 1337 observed,
    // FORK_PORT unset, FORK_CHAIN_ID explicitly 99
    let config = Config::new(
        (),
        "http://mock:8545".to_string(),
        1337,
        &TEST_KEY.to_string(),
        &None,
        &Some("99".to_string()),
    )
    .unwrap();
    assert_eq!(config.http_domain, "http://mock:8545");
    assert_eq!(config.chain_id, 1337);
    assert_eq!(config.fork_port, 8545);
    assert_eq!(config.fork_chain_id, 99);
    assert_eq!(config.http.chain_id, 1337);
    // the signer inside the authorized channel really carries the binding
    assert_eq!(config.http.signer_chain_id(), 1337);
    assert_eq!(config.bot_address.bytes.len(), 20);
}

#[test]
fn bad_endpoint_address_aborts_before_the_signer_is_built() {
    let r = Config::new(
        (),
        "notanurl".to_string(),
        1337,
        &TEST_KEY.to_string(),
        &None,
        &None,
    );
    assert!(matches!(r, Err(ConfigError::ConnectionFailure(_))));
}

#[test]
fn bad_key_aborts_before_any_channel_is_authorized() {
    let r = Config::new(
        (),
        "http://mock:8545".to_string(),
        1337,
        &"abc123".to_string(),
        &None,
        &None,
    );
    assert!(matches!(r, Err(ConfigError::SigningKeyParseFailure(_))));
}

#[test]
fn bad_fork_port_aborts_the_whole_bootstrap() {
    let r = Config::new(
        (),
        "http://mock:8545".to_string(),
        1337,
        &TEST_KEY.to_string(),
        &Some("notanumber".to_string()),
        &None,
    );
    assert!(matches!(
        r,
        Err(ConfigError::NumericParseFailure(ForkParam::Port))
    ));
}

#[test]
fn errors_describe_themselves() {
    let e = ConfigError::MissingConfiguration(RequiredVar::Wss);
    assert_eq!(e.describe(), "missing required environment input WSS");
    let e = ConfigError::MissingConfiguration(RequiredVar::Http);
    assert_eq!(e.describe(), "missing required environment input HTTP");
    let e = ConfigError::MissingConfiguration(RequiredVar::PrivateKey);
    assert_eq!(e.describe(), "missing required environment input PRIVATE_KEY");
    let e = ConfigError::ConnectionFailure("refused".to_string());
    assert_eq!(e.describe(), "failed to open a channel to the node");
    let e = ConfigError::IdentityQueryFailure("timeout".to_string());
    assert_eq!(e.describe(), "failed to resolve the chain identity");
    let e = ConfigError::SigningKeyParseFailure("odd length".to_string());
    assert_eq!(e.describe(), "the private key does not parse");
    let e = ConfigError::NumericParseFailure(ForkParam::Port);
    assert_eq!(e.describe(), "FORK_PORT is set but is not a valid port number");
    let e = ConfigError::NumericParseFailure(ForkParam::ChainId);
    assert_eq!(e.describe(), "FORK_CHAIN_ID is set but is not a valid chain id");
}
