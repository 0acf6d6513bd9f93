use solana_wallet_gateway::error::ServiceError;
use solana_wallet_gateway::network::Network;
use solana_wallet_gateway::network::endpoint_url;
use solana_wallet_gateway::network::parse_airdrop_network;
use solana_wallet_gateway::network::parse_network;

#[test]
fn resolves_devnet() {
    assert_eq!(parse_network("devnet"), Ok(Network::Devnet));
    assert_eq!(endpoint_url(Network::Devnet), "https://api.devnet.solana.com");
}

#[test]
fn resolves_testnet() {
    assert_eq!(parse_network("testnet"), Ok(Network::Testnet));
    assert_eq!(endpoint_url(Network::Testnet), "https://api.testnet.solana.com");
}

#[test]
fn resolves_mainnet() {
    assert_eq!(parse_network("mainnet"), Ok(Network::Mainnet));
    assert_eq!(endpoint_url(Network::Mainnet), "https://api.mainnet-beta.solana.com");
}

#[test]
fn endpoints_are_distinct_and_stable() {
    let urls = [
        endpoint_url(Network::Devnet),
        endpoint_url(Network::Testnet),
        endpoint_url(Network::Mainnet),
    ];
    for i in 0..urls.len() {
        for j in 0..urls.len() {
            if i != j {
                assert_ne!(urls[i], urls[j]);
            }
        }
    }
    assert_eq!(endpoint_url(Network::Devnet), endpoint_url(Network::Devnet));
    assert_eq!(parse_network("devnet"), parse_network("devnet"));
}

#[test]
fn unknown_aliases_fail() {
    for bad in ["", "mainnet-beta", "Devnet", "localnet", "devnet ", " devnet", "xyz"] {
        assert_eq!(parse_network(bad), Err(ServiceError::InvalidNetwork));
    }
}

#[test]
fn airdrop_gate_rejects_mainnet_and_unknown() {
    assert_eq!(parse_airdrop_network("devnet"), Ok(Network::Devnet));
    assert_eq!(parse_airdrop_network("testnet"), Ok(Network::Testnet));
    assert_eq!(parse_airdrop_network("mainnet"), Err(ServiceError::UnsupportedOnMainnet));
    assert_eq!(parse_airdrop_network("nowhere"), Err(ServiceError::InvalidNetwork));
}

#[test]
fn error_messages_are_stable() {
    assert_eq!(ServiceError::InvalidNetwork.message(), "Invalid network identifier.");
    assert_eq!(
        ServiceError::UnsupportedOnMainnet.message(),
        "Faucet is not available on mainnet."
    );
    assert_eq!(ServiceError::InvalidAddress.message(), "Invalid public key");
    assert_eq!(ServiceError::InvalidKey.message(), "Invalid secret key");
    assert_eq!(
        ServiceError::CorruptAccountState.message(),
        "Account data failed validation."
    );
    // An internal error carries the node's message verbatim.
    assert_eq!(
        ServiceError::Internal("rate limited".to_string()).message(),
        "rate limited"
    );
}
