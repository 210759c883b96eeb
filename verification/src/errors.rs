use vstd::prelude::*;

verus! {

/// A required environment input of the bootstrap: absence of any of these is
/// fatal before the corresponding work is attempted.
#[derive(Clone, Copy, Debug, PartialEq, Eq, Structural)]
pub enum RequiredVar {
    Wss,
    Http,
    PrivateKey,
}

/// An optional numeric input of the fork-parameter resolver.
#[derive(Clone, Copy, Debug, PartialEq, Eq, Structural)]
pub enum ForkParam {
    Port,
    ChainId,
}

/// Why a bootstrap aborted. Every failure is terminal: there is no retry and
/// no partially built execution context.
#[derive(Debug)]
pub enum ConfigError {
    /// A required environment input is absent.
    MissingConfiguration(RequiredVar),
    /// A transport-level failure opening either channel, with its detail.
    ConnectionFailure(String),
    /// The chain-identity round trip on the event channel failed.
    IdentityQueryFailure(String),
    /// The secret does not decode into a valid signing key.
    SigningKeyParseFailure(String),
    /// An explicitly supplied fork parameter does not parse as its numeric
    /// type; an explicit malformed value is never masked by a default.
    NumericParseFailure(ForkParam),
}

impl ConfigError {
    /// A short diagnostic naming the step that failed — and, for an absent
    /// input, the variable itself — for the process entry point to report
    /// before terminating.
    pub fn describe(&self) -> (r: String)
        ensures
            r@.len() > 0,
            *self matches ConfigError::MissingConfiguration(v) && v == RequiredVar::Wss ==> r@
                == "missing required environment input WSS"@,
            *self matches ConfigError::MissingConfiguration(v) && v == RequiredVar::Http ==> r@
                == "missing required environment input HTTP"@,
            *self matches ConfigError::MissingConfiguration(v) && v == RequiredVar::PrivateKey
                ==> r@ == "missing required environment input PRIVATE_KEY"@,
            *self matches ConfigError::ConnectionFailure(_) ==> r@
                == "failed to open a channel to the node"@,
            *self matches ConfigError::IdentityQueryFailure(_) ==> r@
                == "failed to resolve the chain identity"@,
            *self matches ConfigError::SigningKeyParseFailure(_) ==> r@
                == "the private key does not parse"@,
            *self matches ConfigError::NumericParseFailure(p) && p == ForkParam::Port ==> r@
                == "FORK_PORT is set but is not a valid port number"@,
            *self matches ConfigError::NumericParseFailure(p) && p == ForkParam::ChainId ==> r@
                == "FORK_CHAIN_ID is set but is not a valid chain id"@,
    {
        let s: &str = match self {
            ConfigError::MissingConfiguration(v) => {
                match v {
                    RequiredVar::Wss => "missing required environment input WSS",
                    RequiredVar::Http => "missing required environment input HTTP",
                    RequiredVar::PrivateKey => "missing required environment input PRIVATE_KEY",
                }
            },
            ConfigError::ConnectionFailure(_) => "failed to open a channel to the node",
            ConfigError::IdentityQueryFailure(_) => "failed to resolve the chain identity",
            ConfigError::SigningKeyParseFailure(_) => "the private key does not parse",
            ConfigError::NumericParseFailure(p) => {
                match p {
                    ForkParam::Port => "FORK_PORT is set but is not a valid port number",
                    ForkParam::ChainId => "FORK_CHAIN_ID is set but is not a valid chain id",
                }
            },
        };
        proof {
            reveal_strlit("missing required environment input WSS");
            reveal_strlit("missing required environment input HTTP");
            reveal_strlit("missing required environment input PRIVATE_KEY");
            reveal_strlit("failed to open a channel to the node");
            reveal_strlit("failed to resolve the chain identity");
            reveal_strlit("the private key does not parse");
            reveal_strlit("FORK_PORT is set but is not a valid port number");
            reveal_strlit("FORK_CHAIN_ID is set but is not a valid chain id");
        }
        s.to_owned()
    }
}

} // verus!
