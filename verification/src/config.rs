use vstd::prelude::*;

use crate::channels::{http_url_ok, key_parse_ok, provider_from_url};
use crate::decimal::{is_numeral_within, numeral_val, parse_u16, parse_u64};
use crate::errors::{ConfigError, ForkParam, RequiredVar};
use crate::keyhex::key_hex_syntax;
use crate::signer::{authorize, build_signer, AuthorizedChannel};
use ethers::providers::{Http, Provider};

verus! {

/// The local fork port that applies where FORK_PORT is unset.
pub const DEFAULT_FORK_PORT: u16 = 8545;

/// The local fork chain id that applies where FORK_CHAIN_ID is unset.
pub const DEFAULT_FORK_CHAIN_ID: u64 = 31337;

/// The twenty bytes of the compiled-in operator address
/// 0x4162a3316fb46e2c9e1cedf459c42f669dcabc3e.
pub open spec fn operator_address_bytes() -> Seq<u8> {
    seq![
        0x41u8, 0x62u8, 0xa3u8, 0x31u8, 0x6fu8, 0xb4u8, 0x6eu8, 0x2cu8, 0x9eu8, 0x1cu8, 0xedu8,
        0xf4u8, 0x59u8, 0xc4u8, 0x2fu8, 0x66u8, 0x9du8, 0xcau8, 0xbcu8, 0x3eu8,
    ]
}

/// A fixed-length 20-byte account identifier.
pub struct Address {
    pub bytes: Vec<u8>,
}

impl Address {
    /// Well-formed: exactly twenty bytes.
    pub open spec fn wf(&self) -> bool {
        self.bytes@.len() == 20
    }
}

/// The operator address the bootstrap compiles in. It is a constant of the
/// build, not an environment input.
pub fn operator_address() -> (r: Address)
    ensures
        r.wf(),
        r.bytes@ == operator_address_bytes(),
{
    let bytes: Vec<u8> = vec![
        0x41u8, 0x62u8, 0xa3u8, 0x31u8, 0x6fu8, 0xb4u8, 0x6eu8, 0x2cu8, 0x9eu8, 0x1cu8, 0xedu8,
        0xf4u8, 0x59u8, 0xc4u8, 0x2fu8, 0x66u8, 0x9du8, 0xcau8, 0xbcu8, 0x3eu8,
    ];
    proof {
        assert(bytes@ =~= operator_address_bytes());
    }
    Address { bytes }
}

/// The environment-provided configuration, as read once at startup. An
/// absent variable is `None`; nothing else is ever read.
pub struct EnvInput {
    pub wss: Option<String>,
    pub http: Option<String>,
    pub private_key: Option<String>,
    pub fork_port: Option<String>,
    pub fork_chain_id: Option<String>,
}

/// The first required input that is absent, in the order the bootstrap
/// checks them: the subscription endpoint, then the transactional endpoint,
/// then the secret.
pub open spec fn first_missing(env: EnvInput) -> Option<RequiredVar> {
    if env.wss is None {
        Some(RequiredVar::Wss)
    } else if env.http is None {
        Some(RequiredVar::Http)
    } else if env.private_key is None {
        Some(RequiredVar::PrivateKey)
    } else {
        None
    }
}

/// The inputs of a bootstrap whose required values are all present.
pub struct Plan {
    pub wss: String,
    pub http: String,
    pub private_key: String,
    pub fork_port: Option<String>,
    pub fork_chain_id: Option<String>,
}

/// Check that every required environment input is present, before any
/// network work is attempted. An absent required value is a fatal
/// `MissingConfiguration` naming the first variable found missing; no later
/// input influences that outcome.
pub fn validate(env: EnvInput) -> (r: Result<Plan, ConfigError>)
    ensures
        first_missing(env) matches Some(v) ==> r == Err::<Plan, ConfigError>(
            ConfigError::MissingConfiguration(v),
        ),
        first_missing(env) is None ==> (r matches Ok(p) && env.wss == Some(p.wss) && env.http
            == Some(p.http) && env.private_key == Some(p.private_key) && p.fork_port
            == env.fork_port && p.fork_chain_id == env.fork_chain_id),
{
    let EnvInput { wss, http, private_key, fork_port, fork_chain_id } = env;
    let wss = match wss {
        Some(s) => s,
        None => {
            return Err(ConfigError::MissingConfiguration(RequiredVar::Wss));
        },
    };
    let http = match http {
        Some(s) => s,
        None => {
            return Err(ConfigError::MissingConfiguration(RequiredVar::Http));
        },
    };
    let private_key = match private_key {
        Some(s) => s,
        None => {
            return Err(ConfigError::MissingConfiguration(RequiredVar::PrivateKey));
        },
    };
    Ok(Plan { wss, http, private_key, fork_port, fork_chain_id })
}

/// Law: with the subscription endpoint absent, the bootstrap is decided as
/// `MissingConfiguration` for that endpoint, and any two such environments
/// are decided identically, whatever their transactional endpoints, secrets
/// or fork parameters hold: the decision reads nothing beyond the absent
/// value, so no transactional-endpoint work can be reached.
pub proof fn lemma_wss_missing_decided_first(env: EnvInput, other: EnvInput)
    requires
        env.wss is None,
        other.wss is None,
    ensures
        first_missing(env) == Some(RequiredVar::Wss),
        first_missing(env) == first_missing(other),
{
}

/// Whether an optional fork parameter parses as a 16-bit value when present.
pub open spec fn fork_u16_ok(v: Option<String>) -> bool {
    v matches Some(s) ==> is_numeral_within(s@, u16::MAX as nat)
}

/// Whether an optional fork parameter parses as a 64-bit value when present.
pub open spec fn fork_u64_ok(v: Option<String>) -> bool {
    v matches Some(s) ==> is_numeral_within(s@, u64::MAX as nat)
}

/// The fork port a well-formed input resolves to.
pub open spec fn resolved_fork_port(v: Option<String>) -> nat {
    match v {
        None => DEFAULT_FORK_PORT as nat,
        Some(s) => numeral_val(s@),
    }
}

/// The fork chain id a well-formed input resolves to.
pub open spec fn resolved_fork_chain_id(v: Option<String>) -> nat {
    match v {
        None => DEFAULT_FORK_CHAIN_ID as nat,
        Some(s) => numeral_val(s@),
    }
}

/// Law: an unset fork parameter resolves to its documented default, the
/// standard local node port and the conventional local chain id.
pub proof fn lemma_unset_fork_parameters_default()
    ensures
        resolved_fork_port(None) == DEFAULT_FORK_PORT as nat,
        resolved_fork_chain_id(None) == DEFAULT_FORK_CHAIN_ID as nat,
{
}

/// Resolve the optional local fork port. Absent means the documented
/// default; a present value must parse as a port number, and a malformed
/// explicit value is a fatal `NumericParseFailure`, never masked by the
/// default.
pub fn resolve_fork_port(v: &Option<String>) -> (r: Result<u16, ConfigError>)
    ensures
        fork_u16_ok(*v) ==> (r matches Ok(p) && p as nat == resolved_fork_port(*v)),
        !fork_u16_ok(*v) ==> r == Err::<u16, ConfigError>(
            ConfigError::NumericParseFailure(ForkParam::Port),
        ),
{
    match v {
        None => Ok(DEFAULT_FORK_PORT),
        Some(s) => match parse_u16(s.as_str()) {
            Some(p) => Ok(p),
            None => Err(ConfigError::NumericParseFailure(ForkParam::Port)),
        },
    }
}

/// Resolve the optional local fork chain id, with the same strictness as the
/// fork port.
pub fn resolve_fork_chain_id(v: &Option<String>) -> (r: Result<u64, ConfigError>)
    ensures
        fork_u64_ok(*v) ==> (r matches Ok(c) && c as nat == resolved_fork_chain_id(*v)),
        !fork_u64_ok(*v) ==> r == Err::<u64, ConfigError>(
            ConfigError::NumericParseFailure(ForkParam::ChainId),
        ),
{
    match v {
        None => Ok(DEFAULT_FORK_CHAIN_ID),
        Some(s) => match parse_u64(s.as_str()) {
            Some(c) => Ok(c),
            None => Err(ConfigError::NumericParseFailure(ForkParam::ChainId)),
        },
    }
}

/// Open the request/response transactional channel for `url`,
/// unauthenticated at this stage. The client accepts or refuses the address
/// by parsing it; a refusal is a fatal `ConnectionFailure` with its detail.
pub fn open_transactional_channel(url: &String) -> (r: Result<Provider<Http>, ConfigError>)
    ensures
        r is Ok <==> http_url_ok(url@),
        r is Ok ==> url@.len() > 0,
        !http_url_ok(url@) ==> (r matches Err(e) && e matches ConfigError::ConnectionFailure(_)),
{
    match provider_from_url(url) {
        Ok(p) => Ok(p),
        Err(detail) => Err(ConfigError::ConnectionFailure(detail)),
    }
}

/// The execution context: built once at startup, immutable afterwards, and
/// handed to every downstream consumer. It is generic over the
/// event-channel handle `W`, which the caller acquires over the network and
/// which the context owns for its lifetime.
pub struct Config<W> {
    /// The live event-subscription channel handle, shared outward.
    pub ws: W,
    /// The address the transactional channel was opened with.
    pub http_domain: String,
    /// The authorized transactional channel, bound to the observed chain id.
    pub http: AuthorizedChannel,
    /// The compiled-in operator address.
    pub bot_address: Address,
    /// The chain identity observed on the event channel.
    pub chain_id: u64,
    /// The local fork port.
    pub fork_port: u16,
    /// The local fork chain id.
    pub fork_chain_id: u64,
}

impl<W> Config<W> {
    /// A well-formed context: the signer inside the transactional channel is
    /// bound to the chain identity observed on the event channel, the node
    /// endpoint address is non-empty, and the operator address is a full
    /// twenty bytes.
    pub open spec fn wf(&self) -> bool {
        &&& self.http.chain_id == self.chain_id
        &&& self.http_domain@.len() > 0
        &&& self.bot_address.wf()
    }

    /// Assemble the execution context from the event channel, the chain
    /// identity observed on it, and the remaining inputs: open the
    /// transactional channel for `http_domain` (the very value kept in the
    /// context), derive the signing identity and bind it to the observed
    /// chain id, authorize the transactional channel with it, and resolve
    /// the fork parameters, in that order.
    ///
    /// Succeeds exactly when the transactional endpoint is accepted, the
    /// secret decodes into a signing key and both fork parameters parse;
    /// each failure aborts the whole bootstrap with the error of the step
    /// that failed.
    pub fn new(
        ws: W,
        http_domain: String,
        chain_id: u64,
        private_key: &String,
        fork_port: &Option<String>,
        fork_chain_id: &Option<String>,
    ) -> (r: Result<Config<W>, ConfigError>)
        ensures
            r is Ok <==> (http_url_ok(http_domain@) && key_parse_ok(private_key@) && fork_u16_ok(
                *fork_port,
            ) && fork_u64_ok(*fork_chain_id)),
            r matches Ok(c) ==> c.wf(),
            r matches Ok(c) ==> c.ws == ws,
            r matches Ok(c) ==> c.http_domain == http_domain,
            r matches Ok(c) ==> c.chain_id == chain_id && c.http.chain_id == chain_id,
            r matches Ok(c) ==> c.bot_address.bytes@ == operator_address_bytes(),
            r matches Ok(c) ==> c.fork_port as nat == resolved_fork_port(*fork_port),
            r matches Ok(c) ==> c.fork_chain_id as nat == resolved_fork_chain_id(*fork_chain_id),
            !http_url_ok(http_domain@) ==> (r matches Err(e) && e matches
                ConfigError::ConnectionFailure(_)),
            http_url_ok(http_domain@) && !key_parse_ok(private_key@) ==> (r matches Err(e)
                && e matches ConfigError::SigningKeyParseFailure(_)),
            http_url_ok(http_domain@) && !key_hex_syntax(private_key@) ==> (r matches Err(e)
                && e matches ConfigError::SigningKeyParseFailure(_)),
            http_url_ok(http_domain@) && key_parse_ok(private_key@) && !fork_u16_ok(*fork_port)
                ==> r == Err::<Config<W>, ConfigError>(
                ConfigError::NumericParseFailure(ForkParam::Port),
            ),
            http_url_ok(http_domain@) && key_parse_ok(private_key@) && fork_u16_ok(*fork_port)
                && !fork_u64_ok(*fork_chain_id) ==> r == Err::<Config<W>, ConfigError>(
                ConfigError::NumericParseFailure(ForkParam::ChainId),
            ),
    {
        let transactional = match open_transactional_channel(&http_domain) {
            Ok(t) => t,
            Err(e) => {
                return Err(e);
            },
        };
        let signer = match build_signer(private_key, chain_id) {
            Ok(s) => s,
            Err(e) => {
                return Err(e);
            },
        };
        let fork_port = match resolve_fork_port(fork_port) {
            Ok(p) => p,
            Err(e) => {
                return Err(e);
            },
        };
        let fork_chain_id = match resolve_fork_chain_id(fork_chain_id) {
            Ok(c) => c,
            Err(e) => {
                return Err(e);
            },
        };
        let http = authorize(transactional, signer);
        Ok(
            Config {
                ws,
                http_domain,
                http,
                bot_address: operator_address(),
                chain_id,
                fork_port,
                fork_chain_id,
            },
        )
    }
}

} // verus!
