//! Wallet lookups: the rules that decide whether an address is well
//! formed, how an address becomes an account key, and what a lookup
//! reports of the account entry that the host found for it.
//!
//! The host reads the ledger; the entry it found reaches the library as an
//! argument.

use vstd::prelude::*;
use vstd::string::StringSliceAdditionalSpecFns;
use vstd::utf8::encode_utf8;

verus! {

/// Why a wallet lookup failed.
#[derive(Clone, Copy, Debug, PartialEq, Eq, PartialOrd, Ord, Structural)]
pub enum WalletError {
    /// The address is malformed or cannot be decoded.
    InvalidAddress,
    /// The ledger holds no such account.
    AccountNotFound,
    /// The decoded key does not have the length of a public key.
    InvalidPublicKey,
    /// The ledger's entry could not be read as an account.
    DataCorrupted,
}

impl WalletError {
    /// The number under which the host reports this error.
    pub open spec fn spec_code(self) -> u32 {
        match self {
            WalletError::InvalidAddress => 1,
            WalletError::AccountNotFound => 2,
            WalletError::InvalidPublicKey => 3,
            WalletError::DataCorrupted => 4,
        }
    }

    /// The number under which the host reports this error.
    pub fn code(&self) -> (code: u32)
        ensures
            code == self.spec_code(),
    {
        match self {
            WalletError::InvalidAddress => 1,
            WalletError::AccountNotFound => 2,
            WalletError::InvalidPublicKey => 3,
            WalletError::DataCorrupted => 4,
        }
    }
}

/// The length of an address, in bytes.
pub const MAX_ADDRESS_LENGTH: usize = 56;

/// The length of a public key, in bytes.
pub const PUBLIC_KEY_LENGTH: usize = 32;

/// The key of an account: the bytes of its public key.
#[derive(Debug, PartialEq, Eq)]
pub struct AccountId {
    pub public_key: Vec<u8>,
}

impl View for AccountId {
    type V = Seq<u8>;

    open spec fn view(&self) -> Seq<u8> {
        self.public_key@
    }
}

/// What the ledger holds for an account, as far as lookups report it.
#[derive(Clone, Copy, Debug, PartialEq, Eq, Structural)]
pub struct AccountEntry {
    /// Balance, in stroops.
    pub balance: i64,
    /// Sequence number.
    pub seq_num: u64,
    /// Number of sub-entries.
    pub num_sub_entries: u32,
    /// Ledger in which the entry last changed.
    pub last_modified_ledger_seq: u32,
}

/// Whether a text has the form of an address: its UTF-8 bytes have the
/// right length, and the first of them is the letter `G`.
pub open spec fn well_formed_address(text: Seq<char>) -> bool {
    let bytes = encode_utf8(text);
    bytes.len() == MAX_ADDRESS_LENGTH && bytes[0] == 0x47
}

/// What a text decodes to in base 58 with the Bitcoin alphabet, if it is
/// such an encoding.
pub uninterp spec fn base58_decoded(text: Seq<char>) -> Option<Seq<u8>>;

/// The account key that decoded bytes hold: a version byte in front and a
/// checksum of four bytes at the end frame the public key.
pub open spec fn account_id_of(decoded: Option<Seq<u8>>) -> Result<Seq<u8>, WalletError> {
    match decoded {
        None => Err(WalletError::InvalidAddress),
        Some(bytes) => if bytes.len() < 5 {
            Err(WalletError::InvalidAddress)
        } else if bytes.len() - 5 != PUBLIC_KEY_LENGTH {
            Err(WalletError::InvalidPublicKey)
        } else {
            Ok(bytes.subrange(1, bytes.len() - 4))
        },
    }
}

/// Whether `found` is what `expected` says, the key taken by its bytes.
pub open spec fn is_account_id(
    found: Result<AccountId, WalletError>,
    expected: Result<Seq<u8>, WalletError>,
) -> bool {
    match found {
        Ok(id) => expected == Ok::<Seq<u8>, WalletError>(id@),
        Err(e) => expected == Err::<Seq<u8>, WalletError>(e),
    }
}

/// The account key that a full lookup asks the ledger for: that of the
/// address, where the address is well formed.
pub open spec fn lookup_key_of(address: Seq<char>) -> Result<Seq<u8>, WalletError> {
    if !well_formed_address(address) {
        Err(WalletError::InvalidAddress)
    } else {
        account_id_of(base58_decoded(address))
    }
}

/// What `get_wallet_info` reports for an address and the entry found for
/// it: the error of the address, if it has one, else the entry's sequence
/// number, the time, its balance and its number of sub-entries.
pub open spec fn wallet_report(
    address: Seq<char>,
    entry: AccountEntry,
    timestamp: u64,
) -> Result<(Seq<char>, u64, u64, i64, u32), WalletError> {
    match lookup_key_of(address) {
        Err(e) => Err(e),
        Ok(_) => Ok((address, entry.seq_num, timestamp, entry.balance, entry.num_sub_entries)),
    }
}

/// Decodes `text` with `bs58::decode(..).into_vec()`, which reads it as
/// base 58 in the Bitcoin alphabet. The result depends on the text alone;
/// `None` stands for the decoder's error.
#[verifier::external_body]
fn decode_base58(text: &str) -> (decoded: Option<Vec<u8>>)
    ensures
        match decoded {
            Some(bytes) => base58_decoded(text@) == Some(bytes@),
            None => base58_decoded(text@) is None,
        },
{
    bs58::decode(text).into_vec().ok()
}

/// Wallet lookups.
pub struct WalletInfo;

impl WalletInfo {
    /// Whether `address` has the form of an address. It never fails.
    pub fn is_valid_address(address: &str) -> (result: Result<bool, WalletError>)
        ensures
            result == Ok::<bool, WalletError>(well_formed_address(address@)),
    {
        let bytes = address.as_bytes();
        if bytes.len() != MAX_ADDRESS_LENGTH || bytes[0] != 0x47 {
            return Ok(false);
        }
        Ok(true)
    }

    /// The account key in the bytes that an address decoded to; `None`
    /// where it could not be decoded.
    pub fn account_id_from_decoded(decoded: Option<Vec<u8>>) -> (result: Result<
        AccountId,
        WalletError,
    >)
        ensures
            is_account_id(
                result,
                account_id_of(
                    match decoded {
                        Some(bytes) => Some(bytes@),
                        None => None,
                    },
                ),
            ),
    {
        let mut bytes = match decoded {
            Some(bytes) => bytes,
            None => {
                return Err(WalletError::InvalidAddress);
            },
        };
        let len = bytes.len();
        if len < 5 {
            return Err(WalletError::InvalidAddress);
        }
        if len - 5 != PUBLIC_KEY_LENGTH {
            return Err(WalletError::InvalidPublicKey);
        }
        let ghost all = bytes@;
        bytes.truncate(len - 4);
        bytes.remove(0);
        assert(bytes@ =~= all.subrange(1, all.len() - 4));
        Ok(AccountId { public_key: bytes })
    }

    /// The account key that `address` stands for.
    pub fn address_to_account_id(address: &str) -> (result: Result<AccountId, WalletError>)
        ensures
            is_account_id(result, account_id_of(base58_decoded(address@))),
    {
        Self::account_id_from_decoded(decode_base58(address))
    }

    /// The account key that a full lookup of `address` asks the ledger for.
    /// The form of the address is checked first.
    pub fn lookup_key(address: &str) -> (result: Result<AccountId, WalletError>)
        ensures
            is_account_id(result, lookup_key_of(address@)),
    {
        if !Self::is_valid_address(address)? {
            return Err(WalletError::InvalidAddress);
        }
        Self::address_to_account_id(address)
    }

    /// What a lookup of `wallet_address` reports, given the entry that the
    /// host found for its account and the host's time.
    pub fn get_wallet_info(wallet_address: String, entry: &AccountEntry, timestamp: u64) -> (result:
        Result<(String, u64, u64, i64, u32), WalletError>)
        ensures
            match result {
                Ok(report) => wallet_report(wallet_address@, *entry, timestamp) == Ok::<
                    (Seq<char>, u64, u64, i64, u32),
                    WalletError,
                >((report.0@, report.1, report.2, report.3, report.4)),
                Err(e) => wallet_report(wallet_address@, *entry, timestamp) == Err::<
                    (Seq<char>, u64, u64, i64, u32),
                    WalletError,
                >(e),
            },
    {
        Self::lookup_key(wallet_address.as_str())?;
        Ok((wallet_address, entry.seq_num, timestamp, entry.balance, entry.num_sub_entries))
    }

    /// The balance of the account of `wallet_address`, given the entry that
    /// the host found for it.
    pub fn get_balance(wallet_address: &str, entry: &AccountEntry) -> (result: Result<
        i64,
        WalletError,
    >)
        ensures
            match account_id_of(base58_decoded(wallet_address@)) {
                Ok(_) => result == Ok::<i64, WalletError>(entry.balance),
                Err(e) => result == Err::<i64, WalletError>(e),
            },
    {
        match Self::address_to_account_id(wallet_address) {
            Ok(_) => Ok(entry.balance),
            Err(e) => Err(e),
        }
    }

    /// The sequence number of the account of `wallet_address`, given the
    /// entry that the host found for it.
    pub fn get_sequence_number(wallet_address: &str, entry: &AccountEntry) -> (result: Result<
        u64,
        WalletError,
    >)
        ensures
            match account_id_of(base58_decoded(wallet_address@)) {
                Ok(_) => result == Ok::<u64, WalletError>(entry.seq_num),
                Err(e) => result == Err::<u64, WalletError>(e),
            },
    {
        match Self::address_to_account_id(wallet_address) {
            Ok(_) => Ok(entry.seq_num),
            Err(e) => Err(e),
        }
    }
}

} // verus!
