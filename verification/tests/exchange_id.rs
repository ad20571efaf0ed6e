use barter_data::exchange::ExchangeId;
use barter_integration::model::Exchange;

fn all_variants() -> Vec<ExchangeId> {
    vec![
        ExchangeId::BinanceFuturesUsd,
        ExchangeId::BinanceSpot,
        ExchangeId::Bitfinex,
        ExchangeId::Coinbase,
        ExchangeId::GateioFuturesBtc,
        ExchangeId::GateioFuturesUsd,
        ExchangeId::GateioSpot,
        ExchangeId::Kraken,
        ExchangeId::Okx,
    ]
}

#[test]
fn as_str_canonical_tokens() {
    assert_eq!(ExchangeId::BinanceSpot.as_str(), "binance_spot");
    assert_eq!(ExchangeId::BinanceFuturesUsd.as_str(), "binance_futures_usd");
    assert_eq!(ExchangeId::Bitfinex.as_str(), "bitfinex");
    assert_eq!(ExchangeId::Coinbase.as_str(), "coinbase");
    assert_eq!(ExchangeId::GateioSpot.as_str(), "gateio_spot");
    assert_eq!(ExchangeId::GateioFuturesUsd.as_str(), "gateio_futures_usd");
    assert_eq!(ExchangeId::GateioFuturesBtc.as_str(), "gateio_futures_btc");
    assert_eq!(ExchangeId::Kraken.as_str(), "kraken");
    assert_eq!(ExchangeId::Okx.as_str(), "okx");
}

#[test]
fn as_str_non_empty_lowercase_snake_case() {
    for id in all_variants() {
        let token = id.as_str();
        assert!(!token.is_empty());
        for c in token.chars() {
            assert!(
                c.is_ascii_lowercase() || c.is_ascii_digit() || c == '_',
                "unexpected character {c:?} in {token}"
            );
        }
    }
}

#[test]
fn as_str_unique_across_variants() {
    let variants = all_variants();
    for (i, a) in variants.iter().enumerate() {
        for (j, b) in variants.iter().enumerate() {
            if i != j {
                assert_ne!(a.as_str(), b.as_str());
            }
        }
    }
}

#[test]
fn capability_table() {
    for id in all_variants() {
        let spot = id.supports_spot();
        let futures = id.supports_futures();
        match id {
            ExchangeId::BinanceFuturesUsd => {
                assert!(!spot);
                assert!(futures);
            }
            ExchangeId::Okx => {
                assert!(spot);
                assert!(futures);
            }
            _ => {
                assert!(spot);
                assert!(!futures);
            }
        }
    }
}

#[test]
fn every_variant_supports_some_kind() {
    for id in all_variants() {
        assert!(id.supports_spot() || id.supports_futures());
    }
}

#[test]
fn to_exchange_wraps_the_token() {
    for id in all_variants() {
        let exchange = id.to_exchange();
        assert_eq!(exchange, Exchange::from(id.as_str()));
        assert_eq!(format!("{exchange}"), id.as_str());
    }
}

#[test]
fn to_exchange_distinct_for_distinct_ids() {
    let variants = all_variants();
    for (i, a) in variants.iter().enumerate() {
        for (j, b) in variants.iter().enumerate() {
            if i != j {
                assert_ne!(a.to_exchange(), b.to_exchange());
            }
        }
    }
}
