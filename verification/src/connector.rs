//! The per-exchange contract the generic streaming engine drives.
//!
//! A [`Connector`] bundles an exchange's identity, endpoint resolution,
//! translation of generic subscriptions into wire requests, and the
//! parameters of the subscription-validation handshake. Every method except
//! identity, endpoint and translation has a default, so a new integration
//! need only override what its protocol genuinely deviates in.

use vstd::prelude::*;
use vstd::multiset::Multiset;
use crate::error::ConnectionError;
use crate::exchange::ExchangeId;
use crate::subscription::{ExchangeSub, SubscriptionMap};

verus! {

/// Default number of milliseconds a `Connector`'s validator waits to receive
/// all success responses to actioned subscription requests.
pub const DEFAULT_SUBSCRIPTION_TIMEOUT_MS: u64 = 10_000;

/// The cadence and payload of custom application-level pings, for exchange
/// servers that require additional keepalive messages beyond transport-level
/// ping/pong. Read-only after construction.
#[derive(Clone, Debug)]
pub struct PingInterval {
    /// Period of the recurring keepalive timer, in milliseconds.
    pub interval_ms: u64,
    /// Text payload of one outbound keepalive message.
    pub ping: String,
}

/// The union, with multiplicity, of per-request identity multisets.
pub open spec fn identity_union(idents: Seq<Multiset<(Seq<char>, Seq<char>)>>) -> Multiset<
    (Seq<char>, Seq<char>),
>
    decreases idents.len(),
{
    if idents.len() == 0 {
        Multiset::empty()
    } else {
        identity_union(idents.drop_last()).add(idents.last())
    }
}

/// The (channel, market) identities a sequence of subscriptions asks for,
/// with multiplicity.
pub open spec fn sub_identities<Channel: View<V = Seq<char>>, Market: View<V = Seq<char>>>(
    subs: Seq<ExchangeSub<Channel, Market>>,
) -> Multiset<(Seq<char>, Seq<char>)> {
    subs.map_values(|s: ExchangeSub<Channel, Market>| (s.channel@, s.market@)).to_multiset()
}

/// Primary exchange abstraction: how to translate generic subscription data
/// into exchange-specific requests, and the parameters under which a
/// connection with the exchange server is established and validated.
///
/// Must be implemented for a new exchange integration.
pub trait Connector where Self: Sized {
    /// Exchange-specific channel token a subscription translates to,
    /// exposed as its character sequence.
    type Channel: View<V = Seq<char>>;

    /// Exchange-specific market token a subscription translates to,
    /// exposed as its character sequence.
    type Market: View<V = Seq<char>>;

    /// One outbound subscription-request message, in the exchange's own
    /// wire shape.
    type Request;

    /// The (channel, market) identities one outbound request subscribes,
    /// with multiplicity. Fixes what [`Connector::requests`] must cover.
    spec fn request_identities(request: Self::Request) -> Multiset<(Seq<char>, Seq<char>)>;

    /// Unique identifier for the exchange server being connected with.
    fn id() -> ExchangeId;

    /// Base URL of the exchange server being connected with. Fallible:
    /// a malformed endpoint is a configuration error.
    fn url() -> Result<url::Url, ConnectionError>;

    /// Cadence and payload of custom application-level pings. Defaults to
    /// `None`: most exchanges rely on transport-level ping/pong.
    fn ping_interval() -> (ping: Option<PingInterval>)
        default_ensures
            ping is None,
    {
        None
    }

    /// Translate a collection of [`ExchangeSub`]s into the subscription
    /// request messages sent to the exchange server.
    ///
    /// Pure translation, no I/O. Requests may batch several subscriptions or
    /// carry one each, but taken together they subscribe exactly the
    /// identities passed in: none omitted, none duplicated, none invented;
    /// and no subscriptions yield no requests.
    fn requests(exchange_subs: Vec<ExchangeSub<Self::Channel, Self::Market>>) -> (out: Vec<
        Self::Request,
    >)
        ensures
            identity_union(
                out@.map_values(|request: Self::Request| Self::request_identities(request)),
            ) == sub_identities(exchange_subs@),
            exchange_subs@.len() == 0 ==> out@.len() == 0,
    ;

    /// Number of subscription responses expected from the exchange server in
    /// response to the requests sent. Defaults to one success response per
    /// distinct instrument in the map; override when an exchange
    /// acknowledges in batches, or not at all (then the count is the exact
    /// number of acknowledgment events expected, possibly zero).
    fn expected_responses(map: &SubscriptionMap) -> (count: usize)
        default_ensures
            count == map@.len(),
    {
        map.len()
    }

    /// How many milliseconds the validator waits to receive all success
    /// responses to actioned subscription requests. Defaults to 10 seconds.
    fn subscription_timeout() -> (timeout_ms: u64)
        default_ensures
            timeout_ms == DEFAULT_SUBSCRIPTION_TIMEOUT_MS,
    {
        DEFAULT_SUBSCRIPTION_TIMEOUT_MS
    }
}

/// Used when an exchange serves different instrument kinds on distinct
/// physical servers, letting all other `Connector` logic stay identical per
/// server: both facts are compile-time constants of the implementing type.
pub trait ExchangeServer {
    /// Identifier of this physical exchange server.
    fn id() -> ExchangeId;

    /// Static base WebSocket URL of this server.
    fn websocket_url() -> &'static str;
}

/// Marker for the kind of market data a subscription yields (eg/ public
/// trades, order-book levels). Defined per data kind, out of this crate's
/// scope.
pub trait SubKind {

}

/// Associates a (`Connector`, [`SubKind`]) pair with the concrete stream
/// type that consumes the validated connection. A compile-time selection
/// only: implemented by an exchange `Connector` for each data kind it
/// supports, so the generic pipeline needs no central dispatch table.
pub trait StreamSelector<Kind> where Self: Connector, Kind: SubKind {
    type Stream;
}

} // verus!
