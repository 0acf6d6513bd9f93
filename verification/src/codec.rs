//! The greeting program's on-chain record and its fixed-width encoding.
use vstd::prelude::*;
use crate::error::ServiceError;

verus! {

/// Serialized byte length of a [`GreetingAccount`]: one little-endian
/// 32-bit counter.
pub const GREETING_ACCOUNT_LEN: usize = 4;

/// The on-chain record the greeting program keeps per greeted account:
/// a single counter of how often the account has been greeted.
#[derive(Debug, Clone, Copy, PartialEq, Eq, Structural)]
pub struct GreetingAccount {
    pub counter: u32,
}

impl Default for GreetingAccount {
    fn default() -> (r: Self)
        ensures
            r.counter == 0,
    {
        GreetingAccount { counter: 0 }
    }
}

/// The counter held by four little-endian bytes.
pub open spec fn spec_le_u32(b: Seq<u8>) -> u32
    recommends
        b.len() == 4,
{
    (b[0] as u32) | ((b[1] as u32) << 8) | ((b[2] as u32) << 16) | ((b[3] as u32) << 24)
}

/// Decode the fixed-width counter record.
pub fn decode_counter(data: &Vec<u8>) -> (r: GreetingAccount)
    requires
        data@.len() == 4,
    ensures
        r.counter == spec_le_u32(data@),
{
    let b0 = data[0] as u32;
    let b1 = data[1] as u32;
    let b2 = data[2] as u32;
    let b3 = data[3] as u32;
    GreetingAccount { counter: b0 | (b1 << 8) | (b2 << 16) | (b3 << 24) }
}

/// Encode the record into its four little-endian bytes; decoding the
/// result gives the record back.
pub fn encode_counter(rec: &GreetingAccount) -> (r: Vec<u8>)
    ensures
        r@.len() == 4,
        spec_le_u32(r@) == rec.counter,
{
    let c = rec.counter;
    let b0 = (c & 0xff) as u8;
    let b1 = ((c >> 8) & 0xff) as u8;
    let b2 = ((c >> 16) & 0xff) as u8;
    let b3 = ((c >> 24) & 0xff) as u8;
    let mut v: Vec<u8> = Vec::new();
    v.push(b0);
    v.push(b1);
    v.push(b2);
    v.push(b3);
    proof {
        assert(v@ == seq![b0, b1, b2, b3]);
        assert((b0 as u32) | ((b1 as u32) << 8) | ((b2 as u32) << 16) | ((b3 as u32) << 24) == c
            && b0 == (c & 0xff) as u8 && b1 == ((c >> 8) & 0xff) as u8 && b2 == ((c >> 16)
            & 0xff) as u8 && b3 == ((c >> 24) & 0xff) as u8) by (bit_vector)
            requires
                b0 == (c & 0xff) as u8,
                b1 == ((c >> 8) & 0xff) as u8,
                b2 == ((c >> 16) & 0xff) as u8,
                b3 == ((c >> 24) & 0xff) as u8,
        ;
    }
    v
}

/// What structural validation of a fetched greeted account yields: the
/// account must be funded, its data non-empty and exactly the fixed record
/// size; any mismatch is corrupt state.
pub open spec fn spec_validate_greeting(lamports: u64, data: Seq<u8>) -> Result<
    GreetingAccount,
    ServiceError,
> {
    if lamports == 0 {
        Err(ServiceError::CorruptAccountState)
    } else if data.len() == 0 {
        Err(ServiceError::CorruptAccountState)
    } else if data.len() != 4 {
        Err(ServiceError::CorruptAccountState)
    } else {
        Ok(GreetingAccount { counter: spec_le_u32(data) })
    }
}

/// Validate the raw bytes of a fetched greeted account and decode its
/// counter.
pub fn validate_greeting_account(lamports: u64, data: &Vec<u8>) -> (r: Result<
    GreetingAccount,
    ServiceError,
>)
    ensures
        r == spec_validate_greeting(lamports, data@),
{
    if lamports == 0 {
        Err(ServiceError::CorruptAccountState)
    } else if data.len() == 0 {
        Err(ServiceError::CorruptAccountState)
    } else if data.len() != 4 {
        Err(ServiceError::CorruptAccountState)
    } else {
        Ok(decode_counter(data))
    }
}

} // verus!
