//! The closed registry of supported exchange servers.
//!
//! Every exchange server endpoint the pipeline can drive is one
//! [`ExchangeId`] variant. Each variant owns a canonical lowercase
//! snake_case token ([`ExchangeId::as_str`]) used as a stable identity
//! everywhere an exchange must be named, and two capability predicates
//! that let configuration reject incompatible (exchange, instrument kind)
//! combinations before any network activity.

use vstd::prelude::*;
use barter_integration::model::Exchange;

verus! {

#[verifier::external_type_specification]
#[verifier::external_body]
pub struct ExExchange(Exchange);

/// The identity token an [`Exchange`] value wraps. An `Exchange` is a
/// newtype over its name; this names that content.
pub uninterp spec fn exchange_token(e: Exchange) -> Seq<char>;

/// Relies on `barter_integration::model::Exchange`'s `From` impl: it wraps
/// the given token unchanged, so the token is recoverable from the value.
#[verifier::external_body]
fn exchange_from_token(token: &'static str) -> (e: Exchange)
    ensures
        exchange_token(e) == token@,
{
    Exchange::from(token)
}

/// Unique identifier for an exchange server a `Connector` connects with.
///
/// An exchange may serve different instrument kinds on distinct physical
/// servers (eg/ spot and USD-margined futures); such exchanges have one
/// variant per server.
#[derive(Copy, Clone, Eq, PartialEq, Ord, PartialOrd, Hash, Debug, Structural)]
pub enum ExchangeId {
    BinanceFuturesUsd,
    BinanceSpot,
    Bitfinex,
    Coinbase,
    GateioFuturesBtc,
    GateioFuturesUsd,
    GateioSpot,
    Kraken,
    Okx,
}

/// Canonical identity token of each [`ExchangeId`] variant, as a sequence of
/// characters. [`ExchangeId::as_str`] returns exactly this.
pub open spec fn id_token(id: ExchangeId) -> Seq<char> {
    match id {
        ExchangeId::BinanceFuturesUsd => "binance_futures_usd"@,
        ExchangeId::BinanceSpot => "binance_spot"@,
        ExchangeId::Bitfinex => "bitfinex"@,
        ExchangeId::Coinbase => "coinbase"@,
        ExchangeId::GateioFuturesBtc => "gateio_futures_btc"@,
        ExchangeId::GateioFuturesUsd => "gateio_futures_usd"@,
        ExchangeId::GateioSpot => "gateio_spot"@,
        ExchangeId::Kraken => "kraken"@,
        ExchangeId::Okx => "okx"@,
    }
}

/// Whether the exchange server identified by `id` carries spot instruments.
pub open spec fn spec_supports_spot(id: ExchangeId) -> bool {
    !(id is BinanceFuturesUsd)
}

/// Whether the exchange server identified by `id` carries futures instruments.
pub open spec fn spec_supports_futures(id: ExchangeId) -> bool {
    id is BinanceFuturesUsd || id is Okx
}

/// A character allowed in a lowercase snake_case identity token.
pub open spec fn snake_char(c: char) -> bool {
    ('a' <= c && c <= 'z') || ('0' <= c && c <= '9') || c == '_'
}

/// A non-empty token made only of lowercase letters, digits and underscores.
pub open spec fn snake_case_token(s: Seq<char>) -> bool {
    &&& s.len() > 0
    &&& forall|i: int| 0 <= i < s.len() ==> snake_char(#[trigger] s[i])
}

/// Law: every [`ExchangeId`] identity token is non-empty, lowercase and
/// snake_case.
pub proof fn lemma_id_token_snake_case(id: ExchangeId)
    ensures
        snake_case_token(id_token(id)),
{
    reveal_strlit("binance_futures_usd");
    reveal_strlit("binance_spot");
    reveal_strlit("bitfinex");
    reveal_strlit("coinbase");
    reveal_strlit("gateio_futures_btc");
    reveal_strlit("gateio_futures_usd");
    reveal_strlit("gateio_spot");
    reveal_strlit("kraken");
    reveal_strlit("okx");
}

/// Law: the identity token determines the variant. Distinct variants have
/// distinct tokens, so mapping a variant to its token and looking the token
/// back up can only return the original variant.
pub proof fn lemma_id_token_unique(a: ExchangeId, b: ExchangeId)
    requires
        a != b,
    ensures
        id_token(a) != id_token(b),
{
    reveal_strlit("binance_futures_usd");
    reveal_strlit("binance_spot");
    reveal_strlit("bitfinex");
    reveal_strlit("coinbase");
    reveal_strlit("gateio_futures_btc");
    reveal_strlit("gateio_futures_usd");
    reveal_strlit("gateio_spot");
    reveal_strlit("kraken");
    reveal_strlit("okx");
    // Tokens differ in length, except the two pairs of equal length, which
    // differ at the asserted positions.
    assert(("binance_futures_usd"@).len() == 19);
    assert(("binance_spot"@).len() == 12);
    assert(("bitfinex"@).len() == 8);
    assert(("coinbase"@).len() == 8);
    assert(("gateio_futures_btc"@).len() == 18);
    assert(("gateio_futures_usd"@).len() == 18);
    assert(("gateio_spot"@).len() == 11);
    assert(("kraken"@).len() == 6);
    assert(("okx"@).len() == 3);
    assert(("bitfinex"@)[0] == 'b');
    assert(("coinbase"@)[0] == 'c');
    assert(("gateio_futures_btc"@)[15] == 'b');
    assert(("gateio_futures_usd"@)[15] == 'u');
}

/// Law: no exchange server supports neither instrument kind. Every variant
/// carries spot instruments, futures instruments, or both.
pub proof fn lemma_id_supports_some_kind(id: ExchangeId)
    ensures
        spec_supports_spot(id) || spec_supports_futures(id),
{
}

impl ExchangeId {
    /// Return the `&str` representation of this [`ExchangeId`].
    ///
    /// The token is a stable wire/identity value persisted by external
    /// systems: it never changes for an existing variant.
    pub fn as_str(&self) -> (token: &'static str)
        ensures
            token@ == id_token(*self),
    {
        match self {
            ExchangeId::BinanceSpot => "binance_spot",
            ExchangeId::BinanceFuturesUsd => "binance_futures_usd",
            ExchangeId::Bitfinex => "bitfinex",
            ExchangeId::Coinbase => "coinbase",
            ExchangeId::GateioSpot => "gateio_spot",
            ExchangeId::GateioFuturesUsd => "gateio_futures_usd",
            ExchangeId::GateioFuturesBtc => "gateio_futures_btc",
            ExchangeId::Kraken => "kraken",
            ExchangeId::Okx => "okx",
        }
    }

    /// Whether the `Connector` associated with this [`ExchangeId`] supports
    /// the ingestion of spot market data.
    pub fn supports_spot(&self) -> (supported: bool)
        ensures
            supported == spec_supports_spot(*self),
    {
        match self {
            ExchangeId::BinanceFuturesUsd => false,
            _ => true,
        }
    }

    /// Whether the `Connector` associated with this [`ExchangeId`] supports
    /// the ingestion of futures market data.
    pub fn supports_futures(&self) -> (supported: bool)
        ensures
            supported == spec_supports_futures(*self),
    {
        match self {
            ExchangeId::BinanceFuturesUsd => true,
            ExchangeId::Okx => true,
            _ => false,
        }
    }

    /// Convert this [`ExchangeId`] to the external [`Exchange`] identity
    /// value. The conversion is lossless and based solely on
    /// [`ExchangeId::as_str`]: the `Exchange` wraps exactly the identity
    /// token.
    pub fn to_exchange(&self) -> (e: Exchange)
        ensures
            exchange_token(e) == id_token(*self),
    {
        exchange_from_token(self.as_str())
    }
}

/// Law: converting distinct [`ExchangeId`] variants yields distinct
/// [`Exchange`] values, since each wraps its variant's unique token.
pub proof fn lemma_to_exchange_injective(a: Exchange, b: Exchange, ia: ExchangeId, ib: ExchangeId)
    requires
        ia != ib,
        exchange_token(a) == id_token(ia),
        exchange_token(b) == id_token(ib),
    ensures
        a != b,
{
    lemma_id_token_unique(ia, ib);
}

} // verus!
