use solana_wallet_gateway::chain::GREETING_LAMPORTS;
use solana_wallet_gateway::chain::program_id;
use solana_wallet_gateway::codec::GreetingAccount;
use solana_wallet_gateway::codec::encode_counter;
use solana_wallet_gateway::codec::validate_greeting_account;
use solana_wallet_gateway::error::ServiceError;
use solana_wallet_gateway::handlers::MySolanaService;
use solana_wallet_gateway::greet::ChainAction;
use solana_wallet_gateway::greet::GreetedState;
use solana_wallet_gateway::greet::after_creation;
use solana_wallet_gateway::greet::after_greeting;
use solana_wallet_gateway::greet::greet_actions;
use solana_wallet_gateway::greet::needs_creation;
use solana_wallet_gateway::keys::create_wallet;

#[test]
fn program_id_matches_its_base58_text() {
    let pid = program_id();
    assert_eq!(
        solana_sdk::bs58::encode(&pid).into_string(),
        "D36yRZ6n8AwhhStGRJQvjZL78nx5DP2qR3CtqraQuLJF"
    );
}

#[test]
fn greet_validates_network_and_key_first() {
    let svc = MySolanaService::default();
    let w = create_wallet();
    let e = svc.prepare_greet("nowhere", &w.secret_key, "seed").unwrap_err();
    assert_eq!(e, ServiceError::InvalidNetwork);
    let e = svc.prepare_greet("devnet", "bad!", "seed").unwrap_err();
    assert_eq!(e, ServiceError::InvalidKey);
}

#[test]
fn derivation_is_pure_and_seed_sensitive() {
    let svc = MySolanaService::default();
    // Same payer, seed and program id: the same address each time.
    let w = create_wallet();
    let a = svc.prepare_greet("devnet", &w.secret_key, "hello").unwrap();
    let b = svc.prepare_greet("devnet", &w.secret_key, "hello").unwrap();
    assert_eq!(a.greeted, b.greeted);
    // Distinct seeds for the same payer: distinct addresses.
    let seeds = ["", "a", "b", "hello", "hello2", "cauves!", "0123456789"];
    let mut derived: Vec<Vec<u8>> = Vec::new();
    for seed in seeds {
        let plan = svc.prepare_greet("devnet", &w.secret_key, seed).unwrap();
        assert!(!derived.contains(&plan.greeted));
        derived.push(plan.greeted);
    }
}

#[test]
fn derivation_matches_the_ledger_sdk() {
    let svc = MySolanaService::default();
    let w = create_wallet();
    let plan = svc.prepare_greet("testnet", &w.secret_key, "crosscheck").unwrap();
    let base = solana_sdk::pubkey::Pubkey::try_from(plan.payer_pubkey.as_slice()).unwrap();
    let owner = solana_sdk::pubkey::Pubkey::try_from(plan.program.as_slice()).unwrap();
    let expected =
        solana_sdk::pubkey::Pubkey::create_with_seed(&base, "crosscheck", &owner).unwrap();
    assert_eq!(plan.greeted, expected.to_bytes().to_vec());
}

#[test]
fn over_long_seed_is_an_internal_error() {
    let svc = MySolanaService::default();
    let w = create_wallet();
    let e = svc.prepare_greet("devnet", &w.secret_key, "123456789012345678901234567890123")
        .unwrap_err();
    assert!(matches!(e, ServiceError::Internal(_)));
}

#[test]
fn create_if_absent_issues_creation_before_invocation() {
    assert_eq!(
        greet_actions(false),
        vec![ChainAction::CreateGreetedAccount, ChainAction::InvokeGreeting]
    );
    assert_eq!(greet_actions(true), vec![ChainAction::InvokeGreeting]);
}

#[test]
fn presence_check_drives_the_creation_decision() {
    let target = vec![9u8; 32];
    let other = vec![1u8; 32];
    assert!(needs_creation(&vec![], &target));
    assert!(needs_creation(&vec![other.clone()], &target));
    assert!(!needs_creation(&vec![other.clone(), target.clone()], &target));
    assert!(!needs_creation(&vec![target.clone()], &target));
}

#[test]
fn greet_transactions_sign_with_the_payer() {
    let svc = MySolanaService::default();
    let w = create_wallet();
    let plan = svc.prepare_greet("devnet", &w.secret_key, "cauves!").unwrap();
    let mock_blockhash = vec![3u8; 32];
    svc.build_creation_transaction(&plan, &mock_blockhash).expect("creation signs");
    svc.build_greeting_transaction(&plan, &mock_blockhash).expect("invocation signs");
    assert_eq!(GREETING_LAMPORTS, 10_000_000);
}

#[test]
fn greeted_account_lifecycle() {
    let created = after_creation(GreetedState::Absent);
    assert_eq!(created, GreetedState::Created { counter: 0 });
    let after_one = after_greeting(created);
    assert_eq!(after_one, GreetedState::Created { counter: 1 });
    let after_two = after_greeting(after_one);
    assert_eq!(after_two, GreetedState::Created { counter: 2 });
    // An already-created account is left alone by the creation step.
    assert_eq!(after_creation(after_two), after_two);
}

#[test]
fn account_validation_accepts_only_the_fixed_record() {
    // Unfunded account.
    assert_eq!(
        validate_greeting_account(0, &vec![0, 0, 0, 0]).unwrap_err(),
        ServiceError::CorruptAccountState
    );
    // Empty data.
    assert_eq!(
        validate_greeting_account(10_000_000, &vec![]).unwrap_err(),
        ServiceError::CorruptAccountState
    );
    // Wrong record size.
    assert_eq!(
        validate_greeting_account(10_000_000, &vec![7, 0, 0, 0, 0]).unwrap_err(),
        ServiceError::CorruptAccountState
    );
    // A valid record decodes little-endian.
    assert_eq!(
        validate_greeting_account(10_000_000, &vec![7, 0, 0, 0]).unwrap(),
        GreetingAccount { counter: 7 }
    );
    assert_eq!(
        validate_greeting_account(1, &vec![0x04, 0x03, 0x02, 0x01]).unwrap(),
        GreetingAccount { counter: 0x01020304 }
    );
}

#[test]
fn counter_record_round_trips() {
    for counter in [0u32, 1, 7, 0x01020304, u32::MAX] {
        let rec = GreetingAccount { counter };
        let bytes = encode_counter(&rec);
        assert_eq!(bytes.len(), 4);
        assert_eq!(validate_greeting_account(1, &bytes).unwrap(), rec);
    }
}

#[test]
fn greet_transaction_contents_match_the_ledger_sdk() {
    let svc = MySolanaService::default();
    let w = create_wallet();
    let plan = svc.prepare_greet("devnet", &w.secret_key, "cauves!").unwrap();
    let blockhash = vec![3u8; 32];
    let payer = solana_sdk::pubkey::Pubkey::try_from(plan.payer_pubkey.as_slice()).unwrap();
    let greeted = solana_sdk::pubkey::Pubkey::try_from(plan.greeted.as_slice()).unwrap();
    let program = solana_sdk::pubkey::Pubkey::try_from(plan.program.as_slice()).unwrap();
    let kp = solana_sdk::signature::Keypair::from_bytes(&plan.payer_keypair).unwrap();
    let hash = solana_sdk::hash::Hash::new(&blockhash);

    // The creation transaction: create-with-seed from the payer, the fixed
    // rent-exempt lamports, the fixed record size, owned by the program,
    // the payer as base, funder, fee payer and sole signer.
    let creation = svc.build_creation_transaction(&plan, &blockhash).unwrap();
    let expected_creation = solana_sdk::transaction::Transaction::new_signed_with_payer(
        &[solana_sdk::system_instruction::create_account_with_seed(
            &payer, &greeted, &payer, "cauves!", 10_000_000, 4, &program,
        )],
        Some(&payer),
        &[&kp],
        hash,
    );
    assert_eq!(creation, expected_creation);

    // The invocation transaction: the program instruction with a writable
    // meta for the greeted account, a read-only signer meta for the payer,
    // no payload, the payer as fee payer, against the given blockhash.
    let invoke = svc.build_greeting_transaction(&plan, &blockhash).unwrap();
    let expected_invoke = solana_sdk::transaction::Transaction::new_signed_with_payer(
        &[solana_sdk::instruction::Instruction::new_with_bytes(
            program,
            &[],
            vec![
                solana_sdk::instruction::AccountMeta::new(greeted, false),
                solana_sdk::instruction::AccountMeta::new_readonly(payer, true),
            ],
        )],
        Some(&payer),
        &[&kp],
        hash,
    );
    assert_eq!(invoke, expected_invoke);
    assert_eq!(invoke.message.recent_blockhash, hash);
}
