//! A stand-in for wallet lookups that reads no ledger.

use vstd::prelude::*;
use vstd::string::StringSliceAdditionalSpecFns;
use vstd::utf8::encode_utf8;

verus! {

/// The length of an address, in bytes.
pub const ADDRESS_LENGTH: usize = 56;

/// The balance that every account is reported with: 100 XLM, in stroops.
pub const PLACEHOLDER_BALANCE: i128 = 1_000_000_000;

/// The sequence number that every account is reported with.
pub const PLACEHOLDER_SEQUENCE: u32 = 12345;

/// Wallet lookups that answer with fixed figures.
pub struct WalletInfo;

impl WalletInfo {
    /// The account itself, with the fixed balance and sequence number.
    pub fn get_account_info(account_id: String) -> (info: (String, i128, u32))
        ensures
            info.0@ == account_id@,
            info.1 == PLACEHOLDER_BALANCE,
            info.2 == PLACEHOLDER_SEQUENCE,
    {
        (account_id, PLACEHOLDER_BALANCE, PLACEHOLDER_SEQUENCE)
    }

    /// Whether `address` has the length of an address.
    pub fn is_valid_address(address: &str) -> (valid: bool)
        ensures
            valid == (encode_utf8(address@).len() == ADDRESS_LENGTH),
    {
        address.as_bytes().len() == ADDRESS_LENGTH
    }
}

} // verus!
