//! Exchange-connector abstraction and subscription-validation protocol for a
//! multi-exchange market-data ingestion pipeline.
//!
//! The crate fixes the contract every exchange integration must satisfy:
//! identity ([`exchange::ExchangeId`]), endpoint resolution, translation of
//! generic subscriptions into exchange-specific wire requests
//! ([`connector::Connector`]), and the bounded-time handshake that confirms
//! every actioned subscription before streaming begins
//! ([`validator::SubscriptionValidation`]).

pub mod connector;
pub mod endpoint;
pub mod error;
pub mod exchange;
pub mod mock;
pub mod subscription;
pub mod validator;
