//! Per-operation request validation and response mapping.
//!
//! Each gateway operation splits into a `prepare` step that validates every
//! caller-supplied value in the required order before any node I/O, a
//! transaction-building step where one is submitted, and a `finish` step
//! that maps the node's reply into the operation's response. The node calls
//! themselves happen between these steps, outside the library.
use vstd::prelude::*;
use crate::chain::GREETING_LAMPORTS;
use crate::chain::creation_tx_of;
use crate::chain::derive_with_seed;
use crate::chain::derived_address;
use crate::chain::program_id;
use crate::chain::sign_creation_transaction;
use crate::chain::sign_greeting_transaction;
use crate::chain::sign_transfer_transaction;
use crate::chain::greeting_tx_of;
use crate::chain::spec_has_pda_marker;
use crate::chain::spec_pda_marker;
use crate::chain::spec_program_id;
use crate::chain::transfer_tx_of;
use crate::codec::GREETING_ACCOUNT_LEN;
use crate::error::ServiceError;
use crate::greet::bytes_eq;
use crate::keys::keypair_bytes_wf;
use crate::keys::keypair_pubkey_from_bytes;
use crate::keys::parse_address;
use crate::keys::decode_secret_key;
use crate::keys::spec_address_bytes;
use crate::keys::spec_secret_bytes;
use crate::keys::spec_valid_address;
use crate::keys::spec_valid_secret;
use crate::network::Network;
use crate::network::endpoint_url;
use crate::network::parse_airdrop_network;
use crate::network::parse_network;
use crate::network::spec_endpoint;
use crate::network::spec_parse_airdrop_network;
use crate::network::spec_parse_network;

verus! {

/// The gateway service: each of the five wallet operations is validated,
/// planned and mapped back here; the node calls between those steps belong
/// to the transport around the service, which holds no state of its own.
#[derive(Debug, PartialEq, Eq, Structural)]
pub struct MySolanaService;

impl Default for MySolanaService {
    fn default() -> (r: Self)
        ensures
            r == MySolanaService,
    {
        MySolanaService
    }
}

/// A validated balance query, ready for one node call.
#[derive(Debug)]
pub struct BalanceQuery {
    pub endpoint: String,
    pub address: Vec<u8>,
}

/// What balance-request validation yields: the resolved network and the
/// parsed address bytes, or the first failure in order (network, then
/// address).
pub open spec fn spec_prepare_balance(network: Seq<char>, address: Seq<char>) -> Result<
    (Network, Seq<u8>),
    ServiceError,
> {
    match spec_parse_network(network) {
        None => Err(ServiceError::InvalidNetwork),
        Some(n) => if spec_valid_address(address) {
            Ok((n, spec_address_bytes(address)))
        } else {
            Err(ServiceError::InvalidAddress)
        },
    }
}

impl MySolanaService {
    /// Validate a balance request before any node I/O.
    pub fn prepare_balance(&self, network: &str, address: &str) -> (r: Result<BalanceQuery, ServiceError>)
        ensures
            r is Ok <==> spec_prepare_balance(network@, address@) is Ok,
            r matches Ok(q) ==> (spec_prepare_balance(network@, address@) matches Ok(p)
                && q.endpoint@ == spec_endpoint(p.0) && q.address@ == p.1 && q.address@.len() == 32),
            r matches Err(e) ==> spec_prepare_balance(network@, address@) == Err::<
                (Network, Seq<u8>),
                ServiceError,
            >(e),
    {
        let n = match parse_network(network) {
            Ok(n) => n,
            Err(e) => {
                return Err(e);
            },
        };
        let address = match parse_address(address) {
            Ok(a) => a,
            Err(e) => {
                return Err(e);
            },
        };
        Ok(BalanceQuery { endpoint: endpoint_url(n), address })
    }

    /// Map the node's balance reply into the response: the lamport balance
    /// verbatim, or the node's failure message wrapped as an internal error.
    pub fn finish_balance(&self, node_result: Result<u64, String>) -> (r: Result<u64, ServiceError>)
        ensures
            r == (match node_result {
                Ok(b) => Ok::<u64, ServiceError>(b),
                Err(m) => Err::<u64, ServiceError>(ServiceError::Internal(m)),
            }),
    {
        match node_result {
            Ok(b) => Ok(b),
            Err(m) => Err(ServiceError::Internal(m)),
        }
    }
}

/// A validated faucet request, ready for one node call.
#[derive(Debug)]
pub struct AirdropCall {
    pub endpoint: String,
    pub address: Vec<u8>,
    pub amount: u64,
}

/// What airdrop-request validation yields: the faucet network gate first
/// (rejecting `mainnet` outright), then the parsed address.
pub open spec fn spec_prepare_airdrop(
    network: Seq<char>,
    address: Seq<char>,
    amount: u64,
) -> Result<(Network, Seq<u8>, u64), ServiceError> {
    match spec_parse_airdrop_network(network) {
        Err(e) => Err(e),
        Ok(n) => if spec_valid_address(address) {
            Ok((n, spec_address_bytes(address), amount))
        } else {
            Err(ServiceError::InvalidAddress)
        },
    }
}

impl MySolanaService {
    /// Validate a faucet request before any node I/O.
    pub fn prepare_airdrop(&self, network: &str, address: &str, amount: u64) -> (r: Result<
        AirdropCall,
        ServiceError,
    >)
        ensures
            r is Ok <==> spec_prepare_airdrop(network@, address@, amount) is Ok,
            r matches Ok(q) ==> (spec_prepare_airdrop(network@, address@, amount) matches Ok(p)
                && q.endpoint@ == spec_endpoint(p.0) && q.address@ == p.1 && q.amount == amount
                && q.address@.len() == 32),
            r matches Err(e) ==> spec_prepare_airdrop(network@, address@, amount) == Err::<
                (Network, Seq<u8>, u64),
                ServiceError,
            >(e),
    {
        let n = match parse_airdrop_network(network) {
            Ok(n) => n,
            Err(e) => {
                return Err(e);
            },
        };
        let address = match parse_address(address) {
            Ok(a) => a,
            Err(e) => {
                return Err(e);
            },
        };
        Ok(AirdropCall { endpoint: endpoint_url(n), address, amount })
    }
}

/// Law: a faucet request naming `mainnet` is rejected with the dedicated
/// error whatever the address and amount are, so no node call can follow.
pub proof fn lemma_airdrop_mainnet_rejected(address: Seq<char>, amount: u64)
    ensures
        spec_prepare_airdrop("mainnet"@, address, amount) == Err::<
            (Network, Seq<u8>, u64),
            ServiceError,
        >(ServiceError::UnsupportedOnMainnet),
{
    reveal_strlit("mainnet");
    reveal_strlit("devnet");
    reveal_strlit("testnet");
    assert("mainnet"@.len() == 7);
    assert("devnet"@.len() == 6);
    assert("mainnet"@[0] == 'm');
    assert("testnet"@[0] == 't');
    assert("mainnet"@ != "devnet"@);
    assert("mainnet"@ != "testnet"@);
}

/// Law: a malformed address always fails validation with `InvalidAddress`,
/// for the balance, faucet and transfer operations alike; validation comes
/// before any node work, so such a request issues no node call.
pub proof fn lemma_malformed_address_rejected(
    network: Seq<char>,
    address: Seq<char>,
    other: Seq<char>,
    secret: Seq<char>,
    amount: u64,
)
    requires
        !spec_valid_address(address),
    ensures
        spec_parse_network(network) is Some ==> spec_prepare_balance(network, address) == Err::<
            (Network, Seq<u8>),
            ServiceError,
        >(ServiceError::InvalidAddress),
        spec_parse_airdrop_network(network) is Ok ==> spec_prepare_airdrop(
            network,
            address,
            amount,
        ) == Err::<(Network, Seq<u8>, u64), ServiceError>(ServiceError::InvalidAddress),
        spec_parse_network(network) is Some ==> spec_prepare_transfer(
            network,
            address,
            other,
            secret,
        ) == Err::<(Network, Seq<u8>, Seq<u8>, Seq<u8>), ServiceError>(
            ServiceError::InvalidAddress,
        ),
        (spec_parse_network(network) is Some && spec_valid_address(other))
            ==> spec_prepare_transfer(network, other, address, secret) == Err::<
            (Network, Seq<u8>, Seq<u8>, Seq<u8>),
            ServiceError,
        >(ServiceError::InvalidAddress),
{
}

/// Law: a malformed secret key always fails transfer validation with
/// `InvalidKey`, whatever the rest of the request holds, again before any
/// node work.
pub proof fn lemma_malformed_secret_rejected(
    network: Seq<char>,
    from: Seq<char>,
    to: Seq<char>,
    secret: Seq<char>,
)
    requires
        !spec_valid_secret(secret),
    ensures
        (spec_parse_network(network) is Some && spec_valid_address(from) && spec_valid_address(
            to,
        )) ==> spec_prepare_transfer(network, from, to, secret) == Err::<
            (Network, Seq<u8>, Seq<u8>, Seq<u8>),
            ServiceError,
        >(ServiceError::InvalidKey),
{
}

impl MySolanaService {
    /// Map the node's submission reply (a transaction signature, or a failure
    /// message) into the response. Failures are surfaced verbatim and never
    /// retried: a submitted transaction must not be silently replayed.
    pub fn finish_submission(&self, node_result: Result<String, String>) -> (r: Result<String, ServiceError>)
        ensures
            r == (match node_result {
                Ok(s) => Ok::<String, ServiceError>(s),
                Err(m) => Err::<String, ServiceError>(ServiceError::Internal(m)),
            }),
    {
        match node_result {
            Ok(s) => Ok(s),
            Err(m) => Err(ServiceError::Internal(m)),
        }
    }
}

/// A validated transfer, ready to sign once a fresh blockhash is known.
#[derive(Debug)]
pub struct TransferPlan {
    pub endpoint: String,
    pub from: Vec<u8>,
    pub to: Vec<u8>,
    pub amount: u64,
    pub payer_keypair: Vec<u8>,
}

impl TransferPlan {
    pub open spec fn wf(self) -> bool {
        self.from@.len() == 32 && self.to@.len() == 32 && self.payer_keypair@.len() == 64
    }
}

/// What transfer-request validation yields, checking in the required
/// order: network, sender address, recipient address, secret key.
pub open spec fn spec_prepare_transfer(
    network: Seq<char>,
    from: Seq<char>,
    to: Seq<char>,
    secret: Seq<char>,
) -> Result<(Network, Seq<u8>, Seq<u8>, Seq<u8>), ServiceError> {
    match spec_parse_network(network) {
        None => Err(ServiceError::InvalidNetwork),
        Some(n) => if !spec_valid_address(from) {
            Err(ServiceError::InvalidAddress)
        } else if !spec_valid_address(to) {
            Err(ServiceError::InvalidAddress)
        } else if !spec_valid_secret(secret) {
            Err(ServiceError::InvalidKey)
        } else {
            Ok((n, spec_address_bytes(from), spec_address_bytes(to), spec_secret_bytes(secret)))
        },
    }
}

impl MySolanaService {
    /// Validate a transfer request before any node I/O.
    pub fn prepare_transfer(&self, 
        network: &str,
        from: &str,
        to: &str,
        amount: u64,
        secret: &str,
    ) -> (r: Result<TransferPlan, ServiceError>)
        ensures
            r is Ok <==> spec_prepare_transfer(network@, from@, to@, secret@) is Ok,
            r matches Ok(p) ==> (spec_prepare_transfer(network@, from@, to@, secret@) matches Ok(t)
                && p.endpoint@ == spec_endpoint(t.0) && p.from@ == t.1 && p.to@ == t.2
                && p.payer_keypair@ == t.3 && p.amount == amount && p.wf() && keypair_bytes_wf(
                p.payer_keypair@,
            )),
            r matches Err(e) ==> spec_prepare_transfer(network@, from@, to@, secret@) == Err::<
                (Network, Seq<u8>, Seq<u8>, Seq<u8>),
                ServiceError,
            >(e),
    {
        let n = match parse_network(network) {
            Ok(n) => n,
            Err(e) => {
                return Err(e);
            },
        };
        let from = match parse_address(from) {
            Ok(a) => a,
            Err(e) => {
                return Err(e);
            },
        };
        let to = match parse_address(to) {
            Ok(a) => a,
            Err(e) => {
                return Err(e);
            },
        };
        let (payer_keypair, _pk) = match decode_secret_key(secret) {
            Ok(p) => p,
            Err(e) => {
                return Err(e);
            },
        };
        Ok(TransferPlan { endpoint: endpoint_url(n), from, to, amount, payer_keypair })
    }

    /// Build and sign the transfer transaction against the caller-fetched
    /// fresh blockhash: one instruction moving the lamports, the sender as fee
    /// payer. Signing fails - an internal error, as any signing failure -
    /// exactly when the secret key's public half is not the sender address.
    pub fn build_transfer_transaction(&self, plan: &TransferPlan, blockhash: &Vec<u8>) -> (r: Result<
        solana_sdk::transaction::Transaction,
        ServiceError,
    >)
        requires
            plan.wf(),
            blockhash@.len() == 32,
        ensures
            r is Ok <==> (keypair_bytes_wf(plan.payer_keypair@) && plan.from@
                == plan.payer_keypair@.subrange(32, 64)),
            r matches Ok(t) ==> t == transfer_tx_of(plan.from@, plan.to@, plan.amount,
                plan.payer_keypair@, blockhash@),
            r matches Err(e) ==> e is Internal,
    {
        let pk = match keypair_pubkey_from_bytes(&plan.payer_keypair) {
            Ok(pk) => pk,
            Err(_) => {
                return Err(ServiceError::Internal("signing failed: malformed keypair".to_owned()));
            },
        };
        if !bytes_eq(&pk, &plan.from) {
            return Err(
                ServiceError::Internal(
                    "signing failed: secret key does not match the sender address".to_owned(),
                ),
            );
        }
        match sign_transfer_transaction(&plan.from, &plan.to, plan.amount, &plan.payer_keypair,
            blockhash) {
            Ok(tx) => Ok(tx),
            Err(_) => {
                proof {
                    assert(false);
                }
                unreached()
            },
        }
    }
}

/// A validated greet request: the resolved endpoint, the payer's keypair
/// and address, the greeting program, and the deterministically derived
/// greeted account.
#[derive(Debug)]
pub struct GreetPlan {
    pub endpoint: String,
    pub payer_keypair: Vec<u8>,
    pub payer_pubkey: Vec<u8>,
    pub program: Vec<u8>,
    pub greeted: Vec<u8>,
    pub seed: String,
}

impl GreetPlan {
    pub open spec fn wf(self) -> bool {
        self.payer_pubkey@.len() == 32 && self.payer_keypair@.len() == 64 && self.program@.len()
            == 32 && self.greeted@.len() == 32
    }
}

/// The greeting program's owner address carries no program-derived-address
/// marker, so seeded derivation under it is never refused for the owner.
pub proof fn lemma_program_id_unmarked()
    ensures
        !spec_has_pda_marker(spec_program_id()),
{
    assert(spec_program_id().len() == 32);
    if spec_has_pda_marker(spec_program_id()) {
        assert(spec_program_id().subrange(11, 32) == spec_pda_marker());
        assert(spec_program_id().subrange(11, 32)[0] == 73);
        assert(spec_pda_marker()[0] == 80);
    }
}

impl MySolanaService {
    /// Validate a greet request before any node I/O: resolve the network,
    /// decode the payer's secret key, and derive the greeted account address
    /// as a pure function of (payer public key, seed, program id).
    pub fn prepare_greet(&self, network: &str, secret: &str, seed: &str) -> (r: Result<
        GreetPlan,
        ServiceError,
    >)
        ensures
            (r matches Err(e) && e == ServiceError::InvalidNetwork) <==> spec_parse_network(network@)
                is None,
            (r matches Err(e) && e == ServiceError::InvalidKey) <==> (spec_parse_network(network@)
                is Some && !spec_valid_secret(secret@)),
            r matches Ok(p) ==> (spec_parse_network(network@) matches Some(n) && p.endpoint@
                == spec_endpoint(n) && spec_valid_secret(secret@) && p.payer_keypair@
                == spec_secret_bytes(secret@) && keypair_bytes_wf(p.payer_keypair@) && p.payer_pubkey@
                == p.payer_keypair@.subrange(32, 64) && p.program@ == spec_program_id() && p.greeted@
                == derived_address(p.payer_pubkey@, seed@, spec_program_id()) && p.seed@ == seed@
                && p.wf()),
            (spec_parse_network(network@) is Some && spec_valid_secret(secret@)
                && vstd::string::is_ascii(seed) && seed@.len() <= 32) ==> r is Ok,
            (spec_parse_network(network@) is Some && spec_valid_secret(secret@) && seed@.len() > 32)
                ==> (r matches Err(e) && e is Internal),
    {
        let n = match parse_network(network) {
            Ok(n) => n,
            Err(e) => {
                return Err(e);
            },
        };
        let (payer_keypair, payer_pubkey) = match decode_secret_key(secret) {
            Ok(p) => p,
            Err(e) => {
                return Err(e);
            },
        };
        let program = program_id();
        proof {
            lemma_program_id_unmarked();
        }
        let greeted = match derive_with_seed(&payer_pubkey, seed, &program) {
            Ok(g) => g,
            Err(_) => {
                return Err(ServiceError::Internal("greeted account derivation failed".to_owned()));
            },
        };
        Ok(
            GreetPlan {
                endpoint: endpoint_url(n),
                payer_keypair,
                payer_pubkey,
                program,
                greeted,
                seed: seed.to_owned(),
            },
        )
    }

    /// Build and sign the funded account-creation-with-seed transaction for an
    /// absent greeted account: the fixed rent-exempt lamport amount, the fixed
    /// record size, the payer as base, funder and fee payer.
    pub fn build_creation_transaction(&self, plan: &GreetPlan, blockhash: &Vec<u8>) -> (r: Result<
        solana_sdk::transaction::Transaction,
        ServiceError,
    >)
        requires
            plan.wf(),
            blockhash@.len() == 32,
        ensures
            r is Ok <==> (keypair_bytes_wf(plan.payer_keypair@) && plan.payer_pubkey@
                == plan.payer_keypair@.subrange(32, 64)),
            r matches Ok(t) ==> t == creation_tx_of(plan.payer_pubkey@, plan.greeted@,
                plan.seed@, GREETING_LAMPORTS, GREETING_ACCOUNT_LEN as u64, plan.program@,
                plan.payer_keypair@, blockhash@),
            r matches Err(e) ==> e is Internal,
    {
        let pk = match keypair_pubkey_from_bytes(&plan.payer_keypair) {
            Ok(pk) => pk,
            Err(_) => {
                return Err(ServiceError::Internal("signing failed: malformed keypair".to_owned()));
            },
        };
        if !bytes_eq(&pk, &plan.payer_pubkey) {
            return Err(
                ServiceError::Internal(
                    "signing failed: secret key does not match the payer address".to_owned(),
                ),
            );
        }
        match sign_creation_transaction(&plan.payer_pubkey, &plan.greeted, plan.seed.as_str(),
            GREETING_LAMPORTS, GREETING_ACCOUNT_LEN as u64, &plan.program, &plan.payer_keypair,
            blockhash) {
            Ok(tx) => Ok(tx),
            Err(_) => {
                proof {
                    assert(false);
                }
                unreached()
            },
        }
    }

    /// Build and sign the greeting invocation transaction against the (now
    /// guaranteed-existing) greeted account, the payer as fee payer and sole
    /// signer.
    pub fn build_greeting_transaction(&self, plan: &GreetPlan, blockhash: &Vec<u8>) -> (r: Result<
        solana_sdk::transaction::Transaction,
        ServiceError,
    >)
        requires
            plan.wf(),
            blockhash@.len() == 32,
        ensures
            r is Ok <==> (keypair_bytes_wf(plan.payer_keypair@) && plan.payer_pubkey@
                == plan.payer_keypair@.subrange(32, 64)),
            r matches Ok(t) ==> t == greeting_tx_of(plan.program@, plan.greeted@,
                plan.payer_pubkey@, plan.payer_keypair@, blockhash@),
            r matches Err(e) ==> e is Internal,
    {
        let pk = match keypair_pubkey_from_bytes(&plan.payer_keypair) {
            Ok(pk) => pk,
            Err(_) => {
                return Err(ServiceError::Internal("signing failed: malformed keypair".to_owned()));
            },
        };
        if !bytes_eq(&pk, &plan.payer_pubkey) {
            return Err(
                ServiceError::Internal(
                    "signing failed: secret key does not match the payer address".to_owned(),
                ),
            );
        }
        match sign_greeting_transaction(&plan.program, &plan.greeted, &plan.payer_pubkey,
            &plan.payer_keypair, blockhash) {
            Ok(tx) => Ok(tx),
            Err(_) => {
                proof {
                    assert(false);
                }
                unreached()
            },
        }
    }
}

} // verus!
