use chain_currency::currency::{CurrencyError, CurrencyType};
use std::str::FromStr;

fn all() -> [CurrencyType; 5] {
    [
        CurrencyType::Arweave,
        CurrencyType::Solana,
        CurrencyType::Ethereum,
        CurrencyType::Erc20,
        CurrencyType::Cosmos,
    ]
}

#[test]
fn names_are_the_canonical_lowercase_ones() {
    assert_eq!(CurrencyType::Arweave.to_string(), "arweave");
    assert_eq!(CurrencyType::Solana.to_string(), "solana");
    assert_eq!(CurrencyType::Ethereum.to_string(), "ethereum");
    assert_eq!(CurrencyType::Erc20.to_string(), "erc20");
    assert_eq!(CurrencyType::Cosmos.to_string(), "cosmos");
}

#[test]
fn from_str_reads_each_name() {
    assert_eq!(CurrencyType::from_str("arweave"), Ok(CurrencyType::Arweave));
    assert_eq!(CurrencyType::from_str("solana"), Ok(CurrencyType::Solana));
    assert_eq!(CurrencyType::from_str("ethereum"), Ok(CurrencyType::Ethereum));
    assert_eq!(CurrencyType::from_str("erc20"), Ok(CurrencyType::Erc20));
    assert_eq!(CurrencyType::from_str("cosmos"), Ok(CurrencyType::Cosmos));
}

#[test]
fn name_round_trips_for_every_kind() {
    for kind in all() {
        assert_eq!(CurrencyType::from_str(&kind.to_string()), Ok(kind));
    }
}

#[test]
fn parse_goes_through_the_std_trait() {
    assert_eq!("erc20".parse::<CurrencyType>(), Ok(CurrencyType::Erc20));
    assert_eq!(
        <CurrencyType as FromStr>::from_str("cosmos"),
        Ok(CurrencyType::Cosmos)
    );
    assert_eq!(
        "Cosmos".parse::<CurrencyType>(),
        Err(CurrencyError::UnsupportedCurrency)
    );
}

#[test]
fn from_str_refuses_other_casing() {
    assert_eq!(
        CurrencyType::from_str("ARWEAVE"),
        Err(CurrencyError::UnsupportedCurrency)
    );
    assert_eq!(
        CurrencyType::from_str("Arweave"),
        Err(CurrencyError::UnsupportedCurrency)
    );
    assert_eq!(
        CurrencyType::from_str("ERC20"),
        Err(CurrencyError::UnsupportedCurrency)
    );
}

#[test]
fn from_str_refuses_unknown_and_empty() {
    assert_eq!(
        CurrencyType::from_str("bitcoin"),
        Err(CurrencyError::UnsupportedCurrency)
    );
    assert_eq!(
        CurrencyType::from_str(""),
        Err(CurrencyError::UnsupportedCurrency)
    );
}

#[test]
fn from_str_refuses_near_misses() {
    for text in [
        " arweave", "arweave ", "arweav", "arweavee", "solana\n", "cosmo", "erc-20", "erc2O",
        "ethereum2", "sosmos", "colana", "\u{430}rweave", "cosm\u{f6}s",
    ] {
        assert_eq!(
            CurrencyType::from_str(text),
            Err(CurrencyError::UnsupportedCurrency),
            "{:?}",
            text
        );
    }
}

#[test]
fn from_str_refuses_long_input() {
    let long = "arweave".repeat(1000);
    assert_eq!(
        CurrencyType::from_str(&long),
        Err(CurrencyError::UnsupportedCurrency)
    );
}

#[test]
fn codes_follow_the_table() {
    assert_eq!(CurrencyType::Arweave.code(), 1);
    assert_eq!(CurrencyType::Solana.code(), 2);
    assert_eq!(CurrencyType::Ethereum.code(), 3);
    assert_eq!(CurrencyType::Erc20.code(), 4);
    assert_eq!(CurrencyType::Cosmos.code(), 5);
}

#[test]
fn codes_are_nonzero_and_distinct() {
    let kinds = all();
    for (i, a) in kinds.iter().enumerate() {
        assert_ne!(a.code(), 0);
        for (j, b) in kinds.iter().enumerate() {
            assert_eq!(a.code() == b.code(), i == j);
        }
    }
}

#[test]
fn from_u64_reads_each_code() {
    assert_eq!(CurrencyType::from_u64(1), Some(CurrencyType::Arweave));
    assert_eq!(CurrencyType::from_u64(2), Some(CurrencyType::Solana));
    assert_eq!(CurrencyType::from_u64(3), Some(CurrencyType::Ethereum));
    assert_eq!(CurrencyType::from_u64(4), Some(CurrencyType::Erc20));
    assert_eq!(CurrencyType::from_u64(5), Some(CurrencyType::Cosmos));
}

#[test]
fn from_u64_refuses_other_numbers() {
    assert_eq!(CurrencyType::from_u64(0), None);
    assert_eq!(CurrencyType::from_u64(6), None);
    assert_eq!(CurrencyType::from_u64(257), None);
    assert_eq!(CurrencyType::from_u64(u64::MAX), None);
}

#[test]
fn from_i64_agrees_with_the_table() {
    assert_eq!(CurrencyType::from_i64(1), Some(CurrencyType::Arweave));
    assert_eq!(CurrencyType::from_i64(5), Some(CurrencyType::Cosmos));
    assert_eq!(CurrencyType::from_i64(0), None);
    assert_eq!(CurrencyType::from_i64(6), None);
    assert_eq!(CurrencyType::from_i64(-1), None);
    assert_eq!(CurrencyType::from_i64(i64::MIN), None);
    assert_eq!(CurrencyType::from_i64(i64::MAX), None);
}

#[test]
fn code_round_trips_for_every_kind() {
    for kind in all() {
        assert_eq!(CurrencyType::from_u64(u64::from(kind.code())), Some(kind));
        assert_eq!(CurrencyType::from_i64(i64::from(kind.code())), Some(kind));
    }
}

#[test]
fn kinds_compare_and_copy_by_value() {
    let a = CurrencyType::Solana;
    let b = a;
    assert_eq!(a, b);
    assert_ne!(a, CurrencyType::Cosmos);
    assert_eq!(format!("{:?}", a), "Solana");
}
