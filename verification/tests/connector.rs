use barter_data::connector::{Connector, ExchangeServer, PingInterval, DEFAULT_SUBSCRIPTION_TIMEOUT_MS};
use barter_data::endpoint::parse_url;
use barter_data::error::ConnectionError;
use barter_data::exchange::ExchangeId;
use barter_data::mock::{MockConnector, MockServer, MOCK_BASE_URL};
use barter_data::subscription::{ExchangeSub, Instrument, InstrumentKind, SubscriptionMap};

fn instrument(base: &str, quote: &str, kind: InstrumentKind) -> Instrument {
    Instrument {
        base: base.to_owned(),
        quote: quote.to_owned(),
        kind,
    }
}

#[test]
fn requests_of_no_subscriptions_are_empty() {
    let out = MockConnector::requests(Vec::new());
    assert!(out.is_empty());
}

#[test]
fn requests_cover_exactly_the_subscriptions() {
    let subs = vec![
        ExchangeSub::new("trades".to_owned(), "btc_usd".to_owned()),
        ExchangeSub::new("trades".to_owned(), "eth_usd".to_owned()),
        ExchangeSub::new("book".to_owned(), "btc_usd".to_owned()),
    ];
    let out = MockConnector::requests(subs);
    assert_eq!(out.len(), 3);
    let mut pairs: Vec<(String, String)> = out
        .into_iter()
        .map(|request| (request.channel, request.market))
        .collect();
    pairs.sort();
    assert_eq!(
        pairs,
        vec![
            ("book".to_owned(), "btc_usd".to_owned()),
            ("trades".to_owned(), "btc_usd".to_owned()),
            ("trades".to_owned(), "eth_usd".to_owned()),
        ]
    );
}

#[test]
fn default_expected_responses_is_the_instrument_count() {
    let mut map = SubscriptionMap::new();
    assert_eq!(MockConnector::expected_responses(&map), 0);

    map.insert(
        "sub_btc".to_owned(),
        instrument("btc", "usd", InstrumentKind::Spot),
    );
    assert_eq!(MockConnector::expected_responses(&map), 1);

    map.insert(
        "sub_eth".to_owned(),
        instrument("eth", "usd", InstrumentKind::Spot),
    );
    map.insert(
        "sub_perp".to_owned(),
        instrument("btc", "usd", InstrumentKind::FuturePerpetual),
    );
    assert_eq!(MockConnector::expected_responses(&map), 3);
}

#[test]
fn subscription_map_replaces_existing_keys() {
    let mut map = SubscriptionMap::new();
    map.insert(
        "sub_btc".to_owned(),
        instrument("btc", "usd", InstrumentKind::Spot),
    );
    map.insert(
        "sub_btc".to_owned(),
        instrument("btc", "usdt", InstrumentKind::Spot),
    );
    assert_eq!(map.len(), 1);
    assert_eq!(MockConnector::expected_responses(&map), 1);
}

#[test]
fn default_subscription_timeout_is_ten_seconds() {
    assert_eq!(DEFAULT_SUBSCRIPTION_TIMEOUT_MS, 10_000);
    assert_eq!(MockConnector::subscription_timeout(), 10_000);
}

#[test]
fn default_ping_interval_is_none() {
    assert!(MockConnector::ping_interval().is_none());
}

#[test]
fn ping_interval_holds_cadence_and_payload() {
    let ping = PingInterval {
        interval_ms: 5_000,
        ping: "ping".to_owned(),
    };
    assert_eq!(ping.interval_ms, 5_000);
    assert_eq!(ping.ping, "ping");
}

#[test]
fn mock_connector_identity_and_url() {
    assert_eq!(MockConnector::id(), ExchangeId::Coinbase);
    let url = MockConnector::url().expect("mock endpoint must resolve");
    assert_eq!(url.as_str(), MOCK_BASE_URL);
}

#[test]
fn mock_server_compile_time_facts() {
    assert_eq!(MockServer::id(), ExchangeId::Coinbase);
    assert_eq!(MockServer::websocket_url(), MOCK_BASE_URL);
}

#[test]
fn malformed_endpoint_text_is_reported() {
    let result = parse_url("not a url at all");
    match result {
        Err(ConnectionError::UrlParse(text)) => assert_eq!(text, "not a url at all"),
        other => panic!("expected a UrlParse error, got {other:?}"),
    }
}

#[test]
fn well_formed_endpoint_text_resolves() {
    let url = parse_url("wss://ws.kraken.com").expect("well-formed URL must parse");
    assert_eq!(url.scheme(), "wss");
}

#[test]
fn exchange_sub_pairs_channel_and_market() {
    let sub = ExchangeSub::new("trades".to_owned(), "btc_usd".to_owned());
    assert_eq!(sub.channel, "trades");
    assert_eq!(sub.market, "btc_usd");
}
