use vstd::prelude::*;

use crate::channels::{
    authorized_chain_id, bind_chain_id, compose_middleware, key_parse_ok, wallet_address_bytes,
    wallet_chain_id, wallet_from_hex, AuthorizedHandle, WalletHandle,
};
use crate::errors::ConfigError;
use crate::keyhex::key_hex_syntax;
use ethers::providers::{Http, Provider};

verus! {

/// A signing identity: key material bound to a chain identifier. The wallet
/// value is opaque; the identifier it was bound to is carried as a plain
/// field, established at construction.
pub struct SigningIdentity {
    pub wallet: WalletHandle,
    pub chain_id: u64,
}

impl SigningIdentity {
    /// The chain id recorded on the wallet value itself, read back from the
    /// outside signer; nothing is proved of it.
    pub fn wallet_chain_id(&self) -> u64 {
        wallet_chain_id(&self.wallet)
    }

    /// The 20-byte account address the outside signer derives from the key
    /// material.
    pub fn wallet_address(&self) -> (r: Vec<u8>)
        ensures
            r@.len() == 20,
    {
        wallet_address_bytes(&self.wallet)
    }
}

/// Parse the secret `key` into a signing identity and bind it to `chain_id`,
/// so that transactions it signs carry that replay-protection value.
///
/// Succeeds exactly when the secret decodes into a valid signing key; a
/// malformed secret — in particular one without the 64-hex-digit key shape —
/// is a fatal `SigningKeyParseFailure`, never a silent default identity.
pub fn build_signer(key: &String, chain_id: u64) -> (r: Result<SigningIdentity, ConfigError>)
    ensures
        r is Ok <==> key_parse_ok(key@),
        r matches Ok(s) ==> s.chain_id == chain_id,
        !key_parse_ok(key@) ==> (r matches Err(e) && e matches ConfigError::SigningKeyParseFailure(_)),
        !key_hex_syntax(key@) ==> (r matches Err(e) && e matches ConfigError::SigningKeyParseFailure(_)),
{
    match wallet_from_hex(key) {
        Ok(w) => Ok(SigningIdentity { wallet: bind_chain_id(w, chain_id), chain_id }),
        Err(detail) => Err(ConfigError::SigningKeyParseFailure(detail)),
    }
}

/// An authorized transactional channel: the request/response client composed
/// with the signing identity it submits transactions as. The chain id the
/// contained signer was bound to is carried as a plain field.
pub struct AuthorizedChannel {
    pub handle: AuthorizedHandle,
    pub chain_id: u64,
}

impl AuthorizedChannel {
    /// The chain id recorded on the signer inside the channel, read back from
    /// the outside value; nothing is proved of it.
    pub fn signer_chain_id(&self) -> u64 {
        authorized_chain_id(&self.handle)
    }
}

/// Compose the unauthenticated transactional channel with a signing identity.
/// Pure composition, no network traffic; the signing identity moves into the
/// authorized channel and the caller keeps no separate reference to it.
pub fn authorize(inner: Provider<Http>, signer: SigningIdentity) -> (r: AuthorizedChannel)
    ensures
        r.chain_id == signer.chain_id,
{
    let chain_id = signer.chain_id;
    AuthorizedChannel { handle: compose_middleware(inner, signer.wallet), chain_id }
}

} // verus!
