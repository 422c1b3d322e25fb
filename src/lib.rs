//! A market-data feed library: a JSON value model, trade records decoded from
//! crypto and stock feed envelopes, a keyed bucket that keeps the latest trade
//! per source, a counted FIFO channel and the feed session's state machine.

pub mod json;

pub mod util;
pub mod trade;
pub mod crypto;
pub mod stocks;
pub mod event;
pub mod exchange;
pub mod counter;
pub mod session;
pub mod request;
