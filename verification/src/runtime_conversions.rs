//! Conversions that the chain runtime asks of its configuration: between
//! block numbers, times and balances, and between a token's number and the
//! name under which the price oracle knows it.

use vstd::prelude::*;
use crate::identity::Identity;

verus! {

/// How many milliseconds a second has.
pub const MILLISECS_PER_SECOND: u64 = 1000;

/// Turns a block number into a balance.
pub struct BlockNumberToBalance;

impl BlockNumberToBalance {
    /// The balance with the value of the block number.
    pub fn convert(a: u32) -> (balance: u128)
        ensures
            balance == a,
    {
        a as u128
    }
}

/// Turns a time in seconds into one in milliseconds.
pub struct ConvertMoment;

impl ConvertMoment {
    /// The moment in milliseconds; the greatest moment there is, where the
    /// product is beyond it.
    pub open spec fn millis(moment: u64) -> u64 {
        if moment * MILLISECS_PER_SECOND > u64::MAX {
            u64::MAX
        } else {
            (moment * MILLISECS_PER_SECOND) as u64
        }
    }

    /// The moment, given in seconds, in milliseconds.
    pub fn convert(moment: u64) -> (converted: Option<u64>)
        ensures
            converted == Some(Self::millis(moment)),
    {
        if moment > u64::MAX / MILLISECS_PER_SECOND {
            Some(u64::MAX)
        } else {
            Some(moment * MILLISECS_PER_SECOND)
        }
    }
}

/// The accounts whose dust is never removed: none.
pub struct DustRemovalWhitelist;

impl DustRemovalWhitelist {
    /// Whether the account is on the list. No account is.
    pub fn contains(a: &Identity) -> (listed: bool)
        ensures
            !listed,
    {
        false
    }
}

/// The name of the native currency, and the names of tokens, as the price
/// oracle knows them: a blockchain and a symbol, each a string of bytes.
pub struct SpacewalkNativeCurrencyKey;

/// The name of the native currency and of its chain: the text `LOCAL`.
pub open spec fn local_name() -> Seq<u8> {
    seq![0x4cu8, 0x4fu8, 0x43u8, 0x41u8, 0x4cu8]
}

/// The oracle's name of the token with the number `token_symbol`: the
/// blockchain is the single byte zero, the symbol the single byte of the
/// number.
pub open spec fn dia_name_of(token_symbol: u8) -> (Seq<u8>, Seq<u8>) {
    (seq![0u8], seq![token_symbol])
}

/// The number of the token that the oracle knows under this name, if the
/// name is one of a token. The symbol must be a single byte. Of the
/// blockchain only this is asked: where it is not a single byte, its first
/// byte must be zero.
pub open spec fn dia_token_of(blockchain: Seq<u8>, symbol: Seq<u8>) -> Option<u8> {
    if (blockchain.len() != 1 && blockchain[0] != 0) || symbol.len() != 1 {
        None
    } else {
        Some(symbol[0])
    }
}

/// The name of a token leads back to the token's number.
pub proof fn law_dia_name_round_trip(token_symbol: u8)
    ensures
        dia_token_of(dia_name_of(token_symbol).0, dia_name_of(token_symbol).1) == Some(
            token_symbol,
        ),
{
}

impl SpacewalkNativeCurrencyKey {
    fn local() -> (name: Vec<u8>)
        ensures
            name@ == local_name(),
    {
        let mut name: Vec<u8> = Vec::new();
        name.push(0x4c);
        name.push(0x4f);
        name.push(0x43);
        name.push(0x41);
        name.push(0x4c);
        assert(name@ =~= local_name());
        name
    }

    /// The symbol of the native currency.
    pub fn native_symbol() -> (symbol: Vec<u8>)
        ensures
            symbol@ == local_name(),
    {
        Self::local()
    }

    /// The chain of the native currency.
    pub fn native_chain() -> (chain: Vec<u8>)
        ensures
            chain@ == local_name(),
    {
        Self::local()
    }

    /// The oracle's name of the token with the number `token_symbol`.
    pub fn convert_to_dia_currency_id(token_symbol: u8) -> (name: Option<(Vec<u8>, Vec<u8>)>)
        ensures
            name matches Some(pair) && (pair.0@, pair.1@) == dia_name_of(token_symbol),
    {
        let mut blockchain: Vec<u8> = Vec::new();
        blockchain.push(0);
        let mut symbol: Vec<u8> = Vec::new();
        symbol.push(token_symbol);
        assert(blockchain@ =~= dia_name_of(token_symbol).0);
        assert(symbol@ =~= dia_name_of(token_symbol).1);
        Some((blockchain, symbol))
    }

    /// The number of the token that the oracle knows under this name. The
    /// blockchain must not be empty.
    pub fn convert_from_dia_currency_id(blockchain: Vec<u8>, symbol: Vec<u8>) -> (token: Option<u8>)
        requires
            blockchain@.len() > 0,
        ensures
            token == dia_token_of(blockchain@, symbol@),
    {
        if blockchain.len() != 1 && blockchain[0] != 0 || symbol.len() != 1 {
            return None;
        }
        Some(symbol[0])
    }
}

} // verus!
