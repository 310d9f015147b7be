//! The two caller-supplied inputs, validated before anything else runs.

use vstd::prelude::*;
use vstd::string::StringSliceAdditionalSpecFns;
use crate::account::{ss58_decode, AccountId};
use crate::error::Error;

verus! {

/// The validated inputs of a run: the parachain to unlock and the account
/// that receives the surplus.
pub struct Config {
    pub para_id: u32,
    pub refund_account: AccountId,
}

/// Validates the raw command-line inputs. The address text must be a
/// well-formed SS58 address; nothing else is accepted, and rejection happens
/// before any connection is attempted. Text longer than the length bound,
/// which no address of a 32-byte account can reach, is rejected like any
/// other malformed input.
pub fn parse_config(para_id: u32, refund_account: &str) -> (r: Result<Config, Error>)
    ensures
        refund_account.spec_bytes().len() <= 128 ==> (r is Ok <==> ss58_decode(refund_account@)
            is Some),
        refund_account.spec_bytes().len() > 128 ==> r is Err,
        r matches Ok(c) ==> c.para_id == para_id && c.refund_account.wf() && ss58_decode(
            refund_account@,
        ) == Some(c.refund_account@),
        r matches Err(e) ==> e == Error::InvalidArgument,
{
    match AccountId::parse(refund_account) {
        Some(account) => Ok(Config { para_id, refund_account: account }),
        None => Err(Error::InvalidArgument),
    }
}

} // verus!
