use chainrepute::identity::Identity;
use chainrepute::runtime_conversions::{
    BlockNumberToBalance, ConvertMoment, DustRemovalWhitelist, SpacewalkNativeCurrencyKey,
};

#[test]
fn block_numbers_become_balances() {
    assert_eq!(BlockNumberToBalance::convert(0), 0u128);
    assert_eq!(BlockNumberToBalance::convert(2000), 2000u128);
    assert_eq!(BlockNumberToBalance::convert(u32::MAX), 4_294_967_295u128);
}

#[test]
fn seconds_become_milliseconds() {
    assert_eq!(ConvertMoment::convert(0), Some(0));
    assert_eq!(ConvertMoment::convert(1), Some(1000));
    assert_eq!(ConvertMoment::convert(1_700_000_000), Some(1_700_000_000_000));
    assert_eq!(ConvertMoment::convert(u64::MAX / 1000), Some(18_446_744_073_709_551_000));
    assert_eq!(ConvertMoment::convert(u64::MAX / 1000 + 1), Some(u64::MAX));
    assert_eq!(ConvertMoment::convert(u64::MAX), Some(u64::MAX));
}

#[test]
fn no_account_is_spared_from_dust_removal() {
    assert!(!DustRemovalWhitelist::contains(&Identity::new(0, 0)));
    assert!(!DustRemovalWhitelist::contains(&Identity::new(u128::MAX, 7)));
}

#[test]
fn native_currency_is_called_local() {
    assert_eq!(SpacewalkNativeCurrencyKey::native_symbol(), "LOCAL".as_bytes().to_vec());
    assert_eq!(SpacewalkNativeCurrencyKey::native_chain(), "LOCAL".as_bytes().to_vec());
}

#[test]
fn token_names_lead_back_to_their_numbers() {
    assert_eq!(
        SpacewalkNativeCurrencyKey::convert_to_dia_currency_id(7),
        Some((vec![0u8], vec![7u8]))
    );
    for token in [0u8, 1, 7, 255] {
        let (blockchain, symbol) =
            SpacewalkNativeCurrencyKey::convert_to_dia_currency_id(token).unwrap();
        assert_eq!(
            SpacewalkNativeCurrencyKey::convert_from_dia_currency_id(blockchain, symbol),
            Some(token)
        );
    }
}

#[test]
fn token_number_of_a_name() {
    let from = SpacewalkNativeCurrencyKey::convert_from_dia_currency_id;
    assert_eq!(from(vec![0], vec![9]), Some(9));
    // a blockchain of one byte is not looked at
    assert_eq!(from(vec![5], vec![9]), Some(9));
    // a longer one must start with zero
    assert_eq!(from(vec![0, 3], vec![9]), Some(9));
    assert_eq!(from(vec![1, 3], vec![9]), None);
    // the symbol must be one byte
    assert_eq!(from(vec![0], vec![]), None);
    assert_eq!(from(vec![0], vec![9, 9]), None);
    assert_eq!(from(vec![0, 3], vec![]), None);
}
