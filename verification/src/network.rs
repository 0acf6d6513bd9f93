//! Network alias resolution.
//!
//! A request names its target network with one token out of a closed set
//! (`devnet`, `testnet`, `mainnet`); each maps to one fixed node endpoint.
//! Resolution happens before any node I/O, so an unknown alias never causes
//! a partial side effect. The faucet operation additionally rejects
//! `mainnet` with its own error.
use vstd::prelude::*;
use crate::error::ServiceError;
use crate::text::str_eq;

verus! {

/// One of the supported ledger networks.
#[derive(Debug, Clone, Copy, PartialEq, Eq, Structural)]
pub enum Network {
    Devnet,
    Testnet,
    Mainnet,
}

/// What a network token resolves to: `None` for every token outside the
/// closed alias set.
pub open spec fn spec_parse_network(s: Seq<char>) -> Option<Network> {
    if s == "devnet"@ {
        Some(Network::Devnet)
    } else if s == "testnet"@ {
        Some(Network::Testnet)
    } else if s == "mainnet"@ {
        Some(Network::Mainnet)
    } else {
        None
    }
}

/// The fixed node endpoint of each network.
pub open spec fn spec_endpoint(n: Network) -> Seq<char> {
    match n {
        Network::Devnet => "https://api.devnet.solana.com"@,
        Network::Testnet => "https://api.testnet.solana.com"@,
        Network::Mainnet => "https://api.mainnet-beta.solana.com"@,
    }
}

/// Resolve a network token, failing with `InvalidNetwork` on any token
/// outside the alias set.
pub fn parse_network(s: &str) -> (r: Result<Network, ServiceError>)
    ensures
        r == (match spec_parse_network(s@) {
            Some(n) => Ok::<Network, ServiceError>(n),
            None => Err::<Network, ServiceError>(ServiceError::InvalidNetwork),
        }),
{
    if str_eq(s, "devnet") {
        Ok(Network::Devnet)
    } else if str_eq(s, "testnet") {
        Ok(Network::Testnet)
    } else if str_eq(s, "mainnet") {
        Ok(Network::Mainnet)
    } else {
        Err(ServiceError::InvalidNetwork)
    }
}

/// Resolve a network token for the faucet operation: `mainnet` is rejected
/// with `UnsupportedOnMainnet`, an unknown token with `InvalidNetwork`.
pub open spec fn spec_parse_airdrop_network(s: Seq<char>) -> Result<Network, ServiceError> {
    match spec_parse_network(s) {
        Some(Network::Mainnet) => Err(ServiceError::UnsupportedOnMainnet),
        Some(n) => Ok(n),
        None => Err(ServiceError::InvalidNetwork),
    }
}

pub fn parse_airdrop_network(s: &str) -> (r: Result<Network, ServiceError>)
    ensures
        r == spec_parse_airdrop_network(s@),
{
    match parse_network(s) {
        Ok(Network::Mainnet) => Err(ServiceError::UnsupportedOnMainnet),
        Ok(n) => Ok(n),
        Err(e) => Err(e),
    }
}

/// The endpoint URL of a resolved network.
pub fn endpoint_url(n: Network) -> (r: String)
    ensures
        r@ == spec_endpoint(n),
{
    match n {
        Network::Devnet => "https://api.devnet.solana.com".to_owned(),
        Network::Testnet => "https://api.testnet.solana.com".to_owned(),
        Network::Mainnet => "https://api.mainnet-beta.solana.com".to_owned(),
    }
}

/// Law: resolution is stable (a spec function of the token alone) and the
/// three supported aliases map to pairwise distinct endpoints.
pub proof fn lemma_endpoints_distinct(a: Network, b: Network)
    ensures
        a != b ==> spec_endpoint(a) != spec_endpoint(b),
{
    reveal_strlit("https://api.devnet.solana.com");
    reveal_strlit("https://api.testnet.solana.com");
    reveal_strlit("https://api.mainnet-beta.solana.com");
    assert(spec_endpoint(Network::Devnet).len() == 29);
    assert(spec_endpoint(Network::Testnet).len() == 30);
    assert(spec_endpoint(Network::Mainnet).len() == 35);
}

} // verus!
