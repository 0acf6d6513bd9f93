use solana_wallet_gateway::cli::Command;
use solana_wallet_gateway::cli::parse_command;
use solana_wallet_gateway::cli::parse_u64;

fn args(list: &[&str]) -> Vec<String> {
    list.iter().map(|s| s.to_string()).collect()
}

#[test]
fn parses_amounts_exactly() {
    assert_eq!(parse_u64("0"), Some(0));
    assert_eq!(parse_u64("1000000"), Some(1_000_000));
    assert_eq!(parse_u64("18446744073709551615"), Some(u64::MAX));
    assert_eq!(parse_u64("18446744073709551616"), None);
    assert_eq!(parse_u64(""), None);
    assert_eq!(parse_u64("12a"), None);
    assert_eq!(parse_u64("-5"), None);
    assert_eq!(parse_u64(" 5"), None);
}

#[test]
fn parses_get_balance() {
    let c = parse_command(&args(&["wallet", "get-balance", "devnet", "SomeAddress"])).unwrap();
    assert!(matches!(
        c,
        Command::GetBalance { network, wallet_address }
            if network == "devnet" && wallet_address == "SomeAddress"
    ));
    assert!(parse_command(&args(&["wallet", "get-balance", "devnet"])).is_none());
    assert!(parse_command(&args(&["wallet", "get-balance", "nowhere", "SomeAddress"])).is_none());
}

#[test]
fn parses_create_wallet() {
    let c = parse_command(&args(&["wallet", "create-wallet"])).unwrap();
    assert!(matches!(c, Command::CreateWallet));
}

#[test]
fn parses_request_airdrop() {
    let c =
        parse_command(&args(&["wallet", "request-airdrop", "devnet", "Addr", "250"])).unwrap();
    assert!(matches!(
        c,
        Command::RequestAirdrop { network, wallet_address, amount }
            if network == "devnet" && wallet_address == "Addr" && amount == 250
    ));
    // The client refuses the faucet on mainnet before anything is sent.
    assert!(parse_command(&args(&["wallet", "request-airdrop", "mainnet", "Addr", "250"]))
        .is_none());
    assert!(parse_command(&args(&["wallet", "request-airdrop", "devnet", "Addr", "abc"]))
        .is_none());
    assert!(parse_command(&args(&["wallet", "request-airdrop", "devnet", "Addr"])).is_none());
}

#[test]
fn parses_send_sol() {
    let c = parse_command(&args(&[
        "wallet", "send-sol", "mainnet", "From", "To", "1000000", "Secret",
    ]))
    .unwrap();
    assert!(matches!(
        c,
        Command::SendSol { network, from_address, to_address, amount, from_secret_key }
            if network == "mainnet" && from_address == "From" && to_address == "To"
                && amount == 1_000_000 && from_secret_key == "Secret"
    ));
    assert!(parse_command(&args(&["wallet", "send-sol", "devnet", "From", "To", "x", "Secret"]))
        .is_none());
    assert!(parse_command(&args(&["wallet", "send-sol", "devnet", "From", "To", "5"]))
        .is_none());
}

#[test]
fn parses_greet() {
    let c = parse_command(&args(&["wallet", "greet", "testnet", "Secret", "seed!"])).unwrap();
    assert!(matches!(
        c,
        Command::Greet { network, payer_secret_key, seed }
            if network == "testnet" && payer_secret_key == "Secret" && seed == "seed!"
    ));
    assert!(parse_command(&args(&["wallet", "greet", "badnet", "Secret", "seed!"])).is_none());
}

#[test]
fn rejects_unknown_commands() {
    assert!(parse_command(&args(&["wallet"])).is_none());
    assert!(parse_command(&args(&["wallet", "mint-nft"])).is_none());
    assert!(parse_command(&args(&[])).is_none());
}
