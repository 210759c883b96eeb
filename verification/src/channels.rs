use vstd::prelude::*;

use ethers::middleware::SignerMiddleware;
use ethers::prelude::k256::ecdsa::SigningKey;
use ethers::providers::{Http, Provider};
use ethers::signers::{LocalWallet, Signer, Wallet};
use std::sync::Arc;

verus! {

#[verifier::external_type_specification]
#[verifier::external_body]
#[verifier::reject_recursive_types(P)]
pub struct ExProvider<P>(Provider<P>);

#[verifier::external_type_specification]
#[verifier::external_body]
pub struct ExHttp(Http);

/// An opaque handle on the outside wallet value (the parsed signing key
/// material). The wallet type's own declaration is refused by the verifier,
/// so the value is held behind this struct and moves through the library
/// unread; what the logic needs of it is carried beside it as plain values.
#[verifier::external_body]
pub struct WalletHandle {
    inner: Wallet<SigningKey>,
}

/// An opaque handle on the authorized transactional channel: the
/// request/response client composed with the signing wallet, under shared
/// ownership so that many downstream consumers can hold it.
#[verifier::external_body]
pub struct AuthorizedHandle {
    inner: Arc<SignerMiddleware<Provider<Http>, Wallet<SigningKey>>>,
}

/// Whether the transactional-channel client accepts `s` as an endpoint
/// address: the outcome of url parsing, a function of the characters alone.
pub uninterp spec fn http_url_ok(s: Seq<char>) -> bool;

/// Whether `s` decodes into a valid signing key: hex decoding followed by the
/// signing curve's scalar check, a function of the characters alone.
pub uninterp spec fn key_parse_ok(s: Seq<char>) -> bool;

/// Relies on `TryFrom<&String> for Provider<Http>`: it parses the address as
/// a url and wraps it into a request/response client, with no network
/// traffic; it succeeds exactly when the url parse does, and the url parser
/// refuses an empty input.
#[verifier::external_body]
pub(crate) fn provider_from_url(url: &String) -> (r: Result<Provider<Http>, String>)
    ensures
        r is Ok <==> http_url_ok(url@),
        r is Ok ==> url@.len() > 0,
{
    match Provider::<Http>::try_from(url) {
        Ok(p) => Ok(p),
        Err(e) => Err(format!("{}", e)),
    }
}

/// Relies on `FromStr for Wallet<SigningKey>`: it drops an optional "0X"
/// prefix, hex-decodes the rest (the decoder wants an even length and drops
/// one optional "0x"/"0X" prefix of its own), requires exactly 32 decoded
/// bytes, and builds the key if the decoded scalar is valid for the curve.
/// In particular it only succeeds on a string with the 64-hex-digit key
/// shape.
#[verifier::external_body]
pub(crate) fn wallet_from_hex(key: &String) -> (r: Result<WalletHandle, String>)
    ensures
        r is Ok <==> key_parse_ok(key@),
        r is Ok ==> crate::keyhex::key_hex_syntax(key@),
{
    match key.parse::<LocalWallet>() {
        Ok(w) => Ok(WalletHandle { inner: w }),
        Err(e) => Err(format!("{}", e)),
    }
}

/// Relies on `Signer::with_chain_id` for the wallet: it returns the same
/// wallet with the given chain id recorded as its replay-protection binding.
#[verifier::external_body]
pub(crate) fn bind_chain_id(w: WalletHandle, chain_id: u64) -> WalletHandle {
    WalletHandle { inner: w.inner.with_chain_id(chain_id) }
}

/// Relies on `Signer::chain_id` for the wallet: it reads back the chain id
/// recorded on the wallet value.
#[verifier::external_body]
pub(crate) fn wallet_chain_id(w: &WalletHandle) -> u64 {
    w.inner.chain_id()
}

/// Relies on `Signer::address` for the wallet: the 20-byte account address
/// derived from the key material, handed out as plain bytes.
#[verifier::external_body]
pub(crate) fn wallet_address_bytes(w: &WalletHandle) -> (r: Vec<u8>)
    ensures
        r@.len() == 20,
{
    w.inner.address().as_bytes().to_vec()
}

/// Relies on `SignerMiddleware::new`: pure composition of the transactional
/// client with the signing wallet, which moves into the returned channel; no
/// network traffic.
#[verifier::external_body]
pub(crate) fn compose_middleware(inner: Provider<Http>, signer: WalletHandle) -> AuthorizedHandle {
    AuthorizedHandle { inner: Arc::new(SignerMiddleware::new(inner, signer.inner)) }
}

/// Relies on `SignerMiddleware::signer` and `Signer::chain_id`: it reads back
/// the chain id recorded on the signer held by the authorized channel.
#[verifier::external_body]
pub(crate) fn authorized_chain_id(h: &AuthorizedHandle) -> u64 {
    h.inner.signer().chain_id()
}

} // verus!
