//! Parsing of client command lines into typed requests.
//!
//! The client turns its argument list into one of the five typed requests
//! before anything is sent: unknown commands, wrong argument counts,
//! unknown network tokens and unparsable amounts are all usage errors.
use vstd::prelude::*;
use crate::network::spec_parse_airdrop_network;
use crate::network::spec_parse_network;
use crate::text::str_eq;

verus! {

/// One typed client invocation of the gateway.
#[derive(Debug, Clone)]
pub enum Command {
    GetBalance { network: String, wallet_address: String },
    CreateWallet,
    RequestAirdrop { network: String, wallet_address: String, amount: u64 },
    SendSol {
        network: String,
        from_address: String,
        to_address: String,
        amount: u64,
        from_secret_key: String,
    },
    Greet { network: String, payer_secret_key: String, seed: String },
}

pub open spec fn spec_is_digit(c: char) -> bool {
    '0' <= c && c <= '9'
}

/// A non-empty string of decimal digits.
pub open spec fn spec_all_digits(s: Seq<char>) -> bool {
    s.len() > 0 && forall|i: int| 0 <= i < s.len() ==> spec_is_digit(s[i])
}

/// The number a digit string denotes.
pub open spec fn spec_digits_value(s: Seq<char>) -> int
    decreases s.len(),
{
    if s.len() == 0 {
        0
    } else {
        spec_digits_value(s.drop_last()) * 10 + (s.last() as u32 - '0' as u32)
    }
}

proof fn lemma_digits_value_nonneg(s: Seq<char>)
    requires
        forall|i: int| 0 <= i < s.len() ==> spec_is_digit(s[i]),
    ensures
        spec_digits_value(s) >= 0,
    decreases s.len(),
{
    if s.len() > 0 {
        assert(forall|i: int| 0 <= i < s.drop_last().len() ==> spec_is_digit(s.drop_last()[i]));
        lemma_digits_value_nonneg(s.drop_last());
    }
}

/// A digit string's value is at least the value of any of its prefixes.
proof fn lemma_digits_prefix_le(s: Seq<char>, i: int)
    requires
        0 <= i <= s.len(),
        forall|k: int| 0 <= k < s.len() ==> spec_is_digit(s[k]),
    ensures
        spec_digits_value(s.subrange(0, i)) <= spec_digits_value(s),
    decreases s.len() - i,
{
    if i < s.len() {
        assert(s.subrange(0, i + 1).drop_last() =~= s.subrange(0, i));
        assert(s.subrange(0, i + 1).last() == s[i]);
        assert(forall|k: int| 0 <= k < s.subrange(0, i).len() ==> spec_is_digit(
            s.subrange(0, i)[k],
        ));
        lemma_digits_value_nonneg(s.subrange(0, i));
        assert(spec_is_digit(s[i]));
        assert(spec_digits_value(s.subrange(0, i)) <= spec_digits_value(s.subrange(0, i + 1)));
        lemma_digits_prefix_le(s, i + 1);
    } else {
        assert(s.subrange(0, i) =~= s);
    }
}

/// Parse a decimal amount: all characters must be digits and the value
/// must fit the lamport type.
pub fn parse_u64(s: &str) -> (r: Option<u64>)
    ensures
        r matches Some(v) ==> spec_all_digits(s@) && v as int == spec_digits_value(s@),
        r is None ==> !spec_all_digits(s@) || spec_digits_value(s@) > u64::MAX,
{
    let len = s.unicode_len();
    if len == 0 {
        return None;
    }
    let mut i: usize = 0;
    let mut val: u64 = 0;
    while i < len
        invariant
            i <= len,
            len == s@.len(),
            s@.len() > 0,
            forall|k: int| 0 <= k < i ==> spec_is_digit(s@[k]),
            val as int == spec_digits_value(s@.subrange(0, i as int)),
        decreases len - i,
    {
        let c = s.get_char(i);
        if c < '0' || c > '9' {
            return None;
        }
        let d = (c as u32 - '0' as u32) as u64;
        proof {
            assert(s@.subrange(0, i + 1 as int).drop_last() =~= s@.subrange(0, i as int));
            assert(s@.subrange(0, i + 1 as int).last() == s@[i as int]);
        }
        let val10 = match val.checked_mul(10) {
            Some(v) => v,
            None => {
                proof {
                    if spec_all_digits(s@) {
                        lemma_digits_value_nonneg(s@.subrange(0, i as int));
                        lemma_digits_prefix_le(s@, i + 1 as int);
                    }
                }
                return None;
            },
        };
        let newval = match val10.checked_add(d) {
            Some(v) => v,
            None => {
                proof {
                    if spec_all_digits(s@) {
                        lemma_digits_prefix_le(s@, i + 1 as int);
                    }
                }
                return None;
            },
        };
        val = newval;
        i += 1;
    }
    proof {
        assert(s@.subrange(0, len as int) =~= s@);
    }
    Some(val)
}

/// Whether an argument list is a well-formed client invocation: a known
/// command word with its exact argument count, a known network token (the
/// faucet command refusing `mainnet`), and a parsable amount.
pub open spec fn spec_command_accepted(args: Seq<String>) -> bool {
    args.len() >= 2 && {
        let c = args[1]@;
        if c == "get-balance"@ {
            args.len() == 4 && spec_parse_network(args[2]@) is Some
        } else if c == "create-wallet"@ {
            true
        } else if c == "request-airdrop"@ {
            args.len() == 5 && spec_parse_airdrop_network(args[2]@) is Ok && spec_all_digits(
                args[4]@,
            ) && spec_digits_value(args[4]@) <= u64::MAX
        } else if c == "send-sol"@ {
            args.len() == 7 && spec_parse_network(args[2]@) is Some && spec_all_digits(args[5]@)
                && spec_digits_value(args[5]@) <= u64::MAX
        } else if c == "greet"@ {
            args.len() == 5 && spec_parse_network(args[2]@) is Some
        } else {
            false
        }
    }
}

/// Parse a full argument list (the program name first) into a typed
/// request; `None` is a usage error and exits the client non-zero.
pub fn parse_command(args: &Vec<String>) -> (r: Option<Command>)
    ensures
        r is Some <==> spec_command_accepted(args@),
        r matches Some(c) ==> (match c {
            Command::GetBalance { network, wallet_address } => args@.len() == 4 && args@[1]@
                == "get-balance"@ && network@ == args@[2]@ && wallet_address@ == args@[3]@,
            Command::CreateWallet => args@.len() >= 2 && args@[1]@ == "create-wallet"@,
            Command::RequestAirdrop { network, wallet_address, amount } => args@.len() == 5
                && args@[1]@ == "request-airdrop"@ && network@ == args@[2]@ && wallet_address@
                == args@[3]@ && amount as int == spec_digits_value(args@[4]@),
            Command::SendSol { network, from_address, to_address, amount, from_secret_key } => args@.len()
                == 7 && args@[1]@ == "send-sol"@ && network@ == args@[2]@ && from_address@
                == args@[3]@ && to_address@ == args@[4]@ && amount as int == spec_digits_value(
                args@[5]@,
            ) && from_secret_key@ == args@[6]@,
            Command::Greet { network, payer_secret_key, seed } => args@.len() == 5 && args@[1]@
                == "greet"@ && network@ == args@[2]@ && payer_secret_key@ == args@[3]@ && seed@
                == args@[4]@,
        }),
{
    if args.len() < 2 {
        return None;
    }
    let cmd = args[1].as_str();
    if str_eq(cmd, "get-balance") {
        if args.len() != 4 {
            return None;
        }
        match crate::network::parse_network(args[2].as_str()) {
            Ok(_) => Some(
                Command::GetBalance { network: args[2].clone(), wallet_address: args[3].clone() },
            ),
            Err(_) => None,
        }
    } else if str_eq(cmd, "create-wallet") {
        Some(Command::CreateWallet)
    } else if str_eq(cmd, "request-airdrop") {
        if args.len() != 5 {
            return None;
        }
        let amount = match parse_u64(args[4].as_str()) {
            Some(a) => a,
            None => {
                return None;
            },
        };
        match crate::network::parse_airdrop_network(args[2].as_str()) {
            Ok(_) => Some(
                Command::RequestAirdrop {
                    network: args[2].clone(),
                    wallet_address: args[3].clone(),
                    amount,
                },
            ),
            Err(_) => None,
        }
    } else if str_eq(cmd, "send-sol") {
        if args.len() != 7 {
            return None;
        }
        let amount = match parse_u64(args[5].as_str()) {
            Some(a) => a,
            None => {
                return None;
            },
        };
        match crate::network::parse_network(args[2].as_str()) {
            Ok(_) => Some(
                Command::SendSol {
                    network: args[2].clone(),
                    from_address: args[3].clone(),
                    to_address: args[4].clone(),
                    amount,
                    from_secret_key: args[6].clone(),
                },
            ),
            Err(_) => None,
        }
    } else if str_eq(cmd, "greet") {
        if args.len() != 5 {
            return None;
        }
        match crate::network::parse_network(args[2].as_str()) {
            Ok(_) => Some(
                Command::Greet {
                    network: args[2].clone(),
                    payer_secret_key: args[3].clone(),
                    seed: args[4].clone(),
                },
            ),
            Err(_) => None,
        }
    } else {
        None
    }
}

} // verus!
