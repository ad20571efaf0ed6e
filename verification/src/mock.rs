//! A minimal exchange integration with fully known behaviour.
//!
//! [`MockConnector`] exercises the [`Connector`] contract without any real
//! venue behind it: it emits one outbound request per subscription, keeps
//! every default policy, and resolves a fixed endpoint. Proofs and tests
//! that need a connector with predictable behaviour use it.

use vstd::prelude::*;
use vstd::multiset::Multiset;
use crate::connector::{
    identity_union, sub_identities, Connector, ExchangeServer, StreamSelector, SubKind,
};
use crate::endpoint::{parse_url, url_canon, url_parse_ok, url_text};
use crate::error::ConnectionError;
use crate::exchange::ExchangeId;
use crate::subscription::ExchangeSub;

verus! {

/// Base WebSocket URL the mock connector resolves.
pub const MOCK_BASE_URL: &'static str = "wss://ws.mock.example/stream";

/// The single physical server of the mock exchange: the compile-time facts a
/// connector generic over "which server" keys off.
#[derive(Copy, Clone, Debug)]
pub struct MockServer;

impl ExchangeServer for MockServer {
    fn id() -> (id: ExchangeId)
        ensures
            id == ExchangeId::Coinbase,
    {
        ExchangeId::Coinbase
    }

    fn websocket_url() -> (base: &'static str)
        ensures
            base@ == MOCK_BASE_URL@,
    {
        MOCK_BASE_URL
    }
}

/// A minimal exchange integration: one outbound request per subscription,
/// every default policy kept. Its identifier is chosen arbitrarily; it
/// stands for no real venue.
#[derive(Copy, Clone, Debug)]
pub struct MockConnector;

/// One outbound request of the mock: it subscribes exactly one channel and
/// market pair, carried verbatim.
#[derive(Clone, Debug)]
pub struct MockRequest {
    pub channel: String,
    pub market: String,
}

impl Connector for MockConnector {
    type Channel = String;

    type Market = String;

    type Request = MockRequest;

    open spec fn request_identities(request: MockRequest) -> Multiset<(Seq<char>, Seq<char>)> {
        Multiset::empty().insert((request.channel@, request.market@))
    }

    fn id() -> (id: ExchangeId)
        ensures
            id == ExchangeId::Coinbase,
    {
        MockServer::id()
    }

    fn url() -> (r: Result<url::Url, ConnectionError>)
        ensures
            r is Ok <==> url_parse_ok(MOCK_BASE_URL@),
            r matches Ok(u) ==> url_text(u) == url_canon(MOCK_BASE_URL@),
    {
        parse_url(MockServer::websocket_url())
    }

    fn requests(exchange_subs: Vec<ExchangeSub<String, String>>) -> (out: Vec<MockRequest>) {
        let ghost f = |request: MockRequest| Self::request_identities(request);
        let ghost g = |s: ExchangeSub<String, String>| (s.channel@, s.market@);
        let n = exchange_subs.len();
        let mut out: Vec<MockRequest> = Vec::new();
        let mut i: usize = 0;
        proof {
            broadcast use vstd::seq_lib::group_to_multiset_ensures;
            broadcast use vstd::multiset::group_multiset_axioms;

            assert(out@.map_values(f) =~= Seq::<Multiset<(Seq<char>, Seq<char>)>>::empty());
            let empty_subs = exchange_subs@.take(0).map_values(g);
            assert(empty_subs =~= Seq::<(Seq<char>, Seq<char>)>::empty());
            vstd::multiset::lemma_multiset_empty_len(empty_subs.to_multiset());
            assert(sub_identities(exchange_subs@.take(0)) == Multiset::<
                (Seq<char>, Seq<char>),
            >::empty());
        }
        while i < n
            invariant
                i <= n,
                n == exchange_subs@.len(),
                identity_union(out@.map_values(f)) == sub_identities(exchange_subs@.take(i as int)),
                f == (|request: MockRequest| Self::request_identities(request)),
                g == (|s: ExchangeSub<String, String>| (s.channel@, s.market@)),
            decreases n - i,
        {
            let sub = &exchange_subs[i];
            let request = MockRequest { channel: sub.channel.clone(), market: sub.market.clone() };
            let ghost prev = out@;
            out.push(request);
            proof {
                broadcast use vstd::seq_lib::group_to_multiset_ensures;

                let pair = g(exchange_subs@[i as int]);
                assert(out@.map_values(f) =~= prev.map_values(f).push(f(out@.last())));
                assert(out@.map_values(f).drop_last() =~= prev.map_values(f));
                assert(identity_union(out@.map_values(f)) == identity_union(
                    prev.map_values(f),
                ).add(f(out@.last())));
                assert(identity_union(prev.map_values(f)).add(f(out@.last())) =~= identity_union(
                    prev.map_values(f),
                ).insert(pair));
                let taken = exchange_subs@.take(i as int);
                let taken_next = exchange_subs@.take(i as int + 1);
                assert(taken_next.map_values(g) =~= taken.map_values(g).push(pair));
                assert(taken_next.map_values(g).to_multiset() =~= taken.map_values(
                    g,
                ).to_multiset().insert(pair));
            }
            i += 1;
        }
        proof {
            assert(exchange_subs@.take(n as int) =~= exchange_subs@);
        }
        out
    }
}

/// Marker for the mock's single kind of market data.
#[derive(Copy, Clone, Debug)]
pub struct MockKind;

impl SubKind for MockKind {

}

/// The stream type consuming a validated mock connection.
#[derive(Copy, Clone, Debug)]
pub struct MockStream;

impl StreamSelector<MockKind> for MockConnector {
    type Stream = MockStream;
}

} // verus!
