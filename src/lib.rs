//! Client library for a streaming market-data feed: channel identifiers and
//! their wire tokens, subscription requests, decoding of inbound payloads,
//! the connection session and the reconnection supervisor.

pub mod feed;
pub mod symbol;
pub mod request;
pub mod json;
pub mod messages;
pub mod error;
pub mod connection;
pub mod supervisor;
pub mod historical;

pub use feed::{Delay, DepthLevel, Feed};
pub use symbol::Symbol;
pub use request::SubscribeInfo;
pub use json::Json;
pub use messages::{AggTrade, BookTicker, Message, PartialDepth, Price};
pub use error::Error;
pub use connection::{BinanceApi, Inbound, Step};
pub use historical::Timeframe;
pub use supervisor::{Command, Event, Supervisor};

