//! Deterministic account derivation and transaction construction.
//!
//! A submitted transaction holds one instruction, names a fee payer, and is
//! signed against a fresh blockhash the caller fetched from the node just
//! before. The signed transaction itself is an opaque value of the ledger
//! SDK, built and signed behind trusted wrappers; everything decided around
//! it - which instruction, in which order, paid and signed by whom - is
//! verified.
use vstd::prelude::*;
use crate::keys::keypair_bytes_wf;

verus! {

#[verifier::external_type_specification]
#[verifier::external_body]
pub struct ExTransaction(solana_sdk::transaction::Transaction);

/// Lamports granted to a freshly created greeted account, enough to keep
/// the fixed-size record rent-exempt indefinitely.
pub const GREETING_LAMPORTS: u64 = 10_000_000;

/// The greeting program's account address: the 32 bytes behind the base58
/// text `D36yRZ6n8AwhhStGRJQvjZL78nx5DP2qR3CtqraQuLJF`.
pub open spec fn spec_program_id() -> Seq<u8> {
    seq![
        178u8, 214, 40, 129, 12, 6, 242, 226, 143, 134, 86, 73, 189, 187, 240, 88, 101, 89, 228,
        64, 145, 63, 113, 120, 199, 66, 146, 61, 216, 123, 7, 4,
    ]
}

pub fn program_id() -> (r: Vec<u8>)
    ensures
        r@ == spec_program_id(),
        r@.len() == 32,
{
    let v: Vec<u8> = vec![
        178u8, 214, 40, 129, 12, 6, 242, 226, 143, 134, 86, 73, 189, 187, 240, 88, 101, 89, 228,
        64, 145, 63, 113, 120, 199, 66, 146, 61, 216, 123, 7, 4,
    ];
    proof {
        assert(v@ =~= spec_program_id());
    }
    v
}

/// The marker byte suffix that singles out program-derived addresses: the
/// ASCII bytes of `ProgramDerivedAddress`.
pub open spec fn spec_pda_marker() -> Seq<u8> {
    seq![
        80u8, 114, 111, 103, 114, 97, 109, 68, 101, 114, 105, 118, 101, 100, 65, 100, 100, 114,
        101, 115, 115,
    ]
}

/// Whether an owner address carries the program-derived-address marker, on
/// which seeded derivation is refused.
pub open spec fn spec_has_pda_marker(owner: Seq<u8>) -> bool {
    owner.len() >= 21 && owner.subrange(owner.len() - 21, owner.len() as int)
        == spec_pda_marker()
}

/// The address derived from a base address, a seed string and an owning
/// program: a pure function of the three (a sha256 digest).
pub uninterp spec fn derived_address(base: Seq<u8>, seed: Seq<char>, owner: Seq<u8>) -> Seq<u8>;

/// Relies on Pubkey::create_with_seed: the derived address is a function of
/// base, seed and owner alone; derivation is refused when the seed is over
/// 32 bytes or the owner ends with the program-derived-address marker.
#[verifier::external_body]
pub(crate) fn derive_with_seed(base: &Vec<u8>, seed: &str, owner: &Vec<u8>) -> (r: Result<
    Vec<u8>,
    (),
>)
    requires
        base@.len() == 32,
        owner@.len() == 32,
    ensures
        r matches Ok(a) ==> a@ == derived_address(base@, seed@, owner@) && a@.len() == 32,
        seed@.len() > 32 ==> r is Err,
        (vstd::string::is_ascii(seed) && seed@.len() <= 32 && !spec_has_pda_marker(owner@))
            ==> r is Ok,
{
    let b = solana_sdk::pubkey::Pubkey::try_from(&base[..]).map_err(|_| ())?;
    let o = solana_sdk::pubkey::Pubkey::try_from(&owner[..]).map_err(|_| ())?;
    match solana_sdk::pubkey::Pubkey::create_with_seed(&b, seed, &o) {
        Ok(p) => Ok(p.to_bytes().to_vec()),
        Err(_) => Err(()),
    }
}

/// The signed transfer transaction built from these values: one system
/// transfer instruction moving the lamports from `from` to `to`, fee payer
/// `from`, signed with the keypair against the blockhash. A function of
/// its arguments alone: message compilation and ed25519 signing are
/// deterministic.
pub uninterp spec fn transfer_tx_of(
    from: Seq<u8>,
    to: Seq<u8>,
    lamports: u64,
    keypair: Seq<u8>,
    blockhash: Seq<u8>,
) -> solana_sdk::transaction::Transaction;

/// The signed account-creation transaction built from these values: one
/// create-account-with-seed instruction (base and funder `payer`, the
/// given lamports, space and owning program), fee payer `payer`, signed
/// with the keypair against the blockhash; deterministic as above.
pub uninterp spec fn creation_tx_of(
    payer: Seq<u8>,
    derived: Seq<u8>,
    seed: Seq<char>,
    lamports: u64,
    space: u64,
    program: Seq<u8>,
    keypair: Seq<u8>,
    blockhash: Seq<u8>,
) -> solana_sdk::transaction::Transaction;

/// The signed greeting-invocation transaction built from these values: one
/// instruction of the program with a writable non-signer meta for the
/// greeted account, a read-only signer meta for the payer and an empty
/// payload, fee payer `payer`, signed with the keypair against the
/// blockhash; deterministic as above.
pub uninterp spec fn greeting_tx_of(
    program: Seq<u8>,
    greeted: Seq<u8>,
    payer: Seq<u8>,
    keypair: Seq<u8>,
    blockhash: Seq<u8>,
) -> solana_sdk::transaction::Transaction;

/// Relies on system_instruction::transfer, Transaction::new_with_payer and
/// Transaction::try_sign: the transaction holds the single instruction
/// moving the lamports from the first account to the second, fee-paid by
/// the first. Its only required signer is the `from` account, so signing
/// succeeds whenever the keypair's public half is `from`.
#[verifier::external_body]
pub(crate) fn sign_transfer_transaction(
    from: &Vec<u8>,
    to: &Vec<u8>,
    lamports: u64,
    keypair_bytes: &Vec<u8>,
    blockhash: &Vec<u8>,
) -> (r: Result<solana_sdk::transaction::Transaction, ()>)
    requires
        from@.len() == 32,
        to@.len() == 32,
        blockhash@.len() == 32,
        keypair_bytes_wf(keypair_bytes@),
    ensures
        from@ == keypair_bytes@.subrange(32, 64) ==> r is Ok,
        r matches Ok(t) ==> t == transfer_tx_of(from@, to@, lamports, keypair_bytes@, blockhash@),
{
    let f = solana_sdk::pubkey::Pubkey::try_from(&from[..]).unwrap();
    let t = solana_sdk::pubkey::Pubkey::try_from(&to[..]).unwrap();
    let kp = solana_sdk::signature::Keypair::from_bytes(keypair_bytes).unwrap();
    let h = solana_sdk::hash::Hash::new(blockhash);
    let ix = solana_sdk::system_instruction::transfer(&f, &t, lamports);
    let mut tx = solana_sdk::transaction::Transaction::new_with_payer(&[ix], Some(&f));
    tx.try_sign(&[&kp], h).map_err(|_| ())?;
    Ok(tx)
}

/// Relies on system_instruction::create_account_with_seed,
/// Transaction::new_with_payer and Transaction::try_sign: the transaction
/// holds the single instruction creating the account derived from the
/// payer and the seed, funded with the lamports, sized to the given space,
/// owned by the program; the payer is base, funder and fee payer, and its
/// keypair is the only required signer.
#[verifier::external_body]
pub(crate) fn sign_creation_transaction(
    payer: &Vec<u8>,
    derived: &Vec<u8>,
    seed: &str,
    lamports: u64,
    space: u64,
    program: &Vec<u8>,
    keypair_bytes: &Vec<u8>,
    blockhash: &Vec<u8>,
) -> (r: Result<solana_sdk::transaction::Transaction, ()>)
    requires
        payer@.len() == 32,
        derived@.len() == 32,
        program@.len() == 32,
        blockhash@.len() == 32,
        keypair_bytes_wf(keypair_bytes@),
    ensures
        payer@ == keypair_bytes@.subrange(32, 64) ==> r is Ok,
        r matches Ok(t) ==> t == creation_tx_of(payer@, derived@, seed@, lamports, space,
            program@, keypair_bytes@, blockhash@),
{
    let p = solana_sdk::pubkey::Pubkey::try_from(&payer[..]).unwrap();
    let d = solana_sdk::pubkey::Pubkey::try_from(&derived[..]).unwrap();
    let o = solana_sdk::pubkey::Pubkey::try_from(&program[..]).unwrap();
    let kp = solana_sdk::signature::Keypair::from_bytes(keypair_bytes).unwrap();
    let h = solana_sdk::hash::Hash::new(blockhash);
    let ix = solana_sdk::system_instruction::create_account_with_seed(&p, &d, &p, seed,
        lamports, space, &o);
    let mut tx = solana_sdk::transaction::Transaction::new_with_payer(&[ix], Some(&p));
    tx.try_sign(&[&kp], h).map_err(|_| ())?;
    Ok(tx)
}

/// Relies on Instruction, AccountMeta, Transaction::new_with_payer and
/// Transaction::try_sign: the transaction holds the greeting program
/// invocation - a writable meta for the greeted account, a read-only
/// signer meta for the payer, no instruction payload - fee-paid by the
/// payer, whose keypair is the only required signer.
#[verifier::external_body]
pub(crate) fn sign_greeting_transaction(
    program: &Vec<u8>,
    greeted: &Vec<u8>,
    payer: &Vec<u8>,
    keypair_bytes: &Vec<u8>,
    blockhash: &Vec<u8>,
) -> (r: Result<solana_sdk::transaction::Transaction, ()>)
    requires
        program@.len() == 32,
        greeted@.len() == 32,
        payer@.len() == 32,
        blockhash@.len() == 32,
        keypair_bytes_wf(keypair_bytes@),
    ensures
        payer@ == keypair_bytes@.subrange(32, 64) ==> r is Ok,
        r matches Ok(t) ==> t == greeting_tx_of(program@, greeted@, payer@, keypair_bytes@,
            blockhash@),
{
    let pid = solana_sdk::pubkey::Pubkey::try_from(&program[..]).unwrap();
    let g = solana_sdk::pubkey::Pubkey::try_from(&greeted[..]).unwrap();
    let p = solana_sdk::pubkey::Pubkey::try_from(&payer[..]).unwrap();
    let kp = solana_sdk::signature::Keypair::from_bytes(keypair_bytes).unwrap();
    let metas = vec![solana_sdk::instruction::AccountMeta::new(g, false),
        solana_sdk::instruction::AccountMeta::new_readonly(p, true)];
    let ix = solana_sdk::instruction::Instruction::new_with_bytes(pid, &[], metas);
    let mut tx = solana_sdk::transaction::Transaction::new_with_payer(&[ix], Some(&p));
    tx.try_sign(&[&kp], solana_sdk::hash::Hash::new(blockhash)).map_err(|_| ())?;
    Ok(tx)
}

} // verus!
