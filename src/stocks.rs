//! Stock trade events: decoding from an envelope, and the trade they stand for.

use vstd::prelude::*;
use crate::json::{
    i32_list_field, i32_list_field_of, i64_field, i64_field_of, members_of, number_field,
    number_field_of, optional_i64_field, optional_i64_field_of, optional_u64_field,
    optional_u64_field_of, text_eq, text_field, text_field_of, u64_field, u64_field_of, Json,
    Number,
};
use crate::trade::{Currency, Trade, TradeData, TradeError, TradeView};
use crate::util::{instant_field, instant_field_of};
use crate::event::Feed;
use crate::session::{FeedSession, SessionState};

verus! {

/// The stocks feed.
pub struct Stocks {}

impl Stocks {
    /// A session of the stocks feed, authenticating with `api_key` and
    /// subscribing to the comma-separated `channels`.
    pub fn open_session(api_key: String, channels: String) -> (r: FeedSession)
        ensures
            r.feed_spec() == Feed::Stocks,
            r.credential_spec() == api_key@,
            r.channels_spec() == channels@,
            r.state_spec() == SessionState::Disconnected,
    {
        FeedSession::new(Feed::Stocks, api_key, channels)
    }
}

/// The tag that marks a stock trade envelope.
pub open spec fn stock_tag() -> Seq<char> {
    "T"@
}

/// A stock trade as the feed reports it. The instant is UTC seconds since the epoch.
#[derive(Clone, Debug)]
pub struct TradeEvent {
    pub event_type: String,
    pub symbol: String,
    pub exchange_id: u64,
    pub trade_id: String,
    pub tape: u64,
    pub price: Number,
    pub trade_size: u64,
    pub trade_conditions: Vec<i32>,
    pub timestamp: i64,
    pub sequence_number: i64,
    pub trade_reporting_facility_id: Option<i64>,
    pub trf_timestamp: Option<u64>,
}

/// Whether the envelope's `ev` member is the stock trade tag.
pub open spec fn is_stock_envelope(j: Json) -> bool {
    text_field(members_of(j), "ev"@) == Some(stock_tag())
}

/// Whether every member that a stock trade needs is present with its type;
/// `trfi` and `trft` may be absent or `null`.
pub open spec fn stock_well_formed(m: Seq<(String, Json)>) -> bool {
    &&& text_field(m, "ev"@) is Some
    &&& text_field(m, "sym"@) is Some
    &&& u64_field(m, "x"@) is Some
    &&& text_field(m, "i"@) is Some
    &&& u64_field(m, "z"@) is Some
    &&& number_field(m, "p"@) is Some
    &&& u64_field(m, "s"@) is Some
    &&& i32_list_field(m, "c"@) is Some
    &&& instant_field(m, "t"@) is Some
    &&& i64_field(m, "q"@) is Some
    &&& optional_i64_field(m, "trfi"@) is Some
    &&& optional_u64_field(m, "trft"@) is Some
}

/// Whether `e` holds exactly the members of `m`.
pub open spec fn stock_decodes_to(m: Seq<(String, Json)>, e: TradeEvent) -> bool {
    &&& text_field(m, "ev"@) == Some(e.event_type@)
    &&& text_field(m, "sym"@) == Some(e.symbol@)
    &&& u64_field(m, "x"@) == Some(e.exchange_id)
    &&& text_field(m, "i"@) == Some(e.trade_id@)
    &&& u64_field(m, "z"@) == Some(e.tape)
    &&& number_field(m, "p"@) == Some(e.price)
    &&& u64_field(m, "s"@) == Some(e.trade_size)
    &&& i32_list_field(m, "c"@) == Some(e.trade_conditions@)
    &&& instant_field(m, "t"@) == Some(e.timestamp)
    &&& i64_field(m, "q"@) == Some(e.sequence_number)
    &&& optional_i64_field(m, "trfi"@) == Some(e.trade_reporting_facility_id)
    &&& optional_u64_field(m, "trft"@) == Some(e.trf_timestamp)
}

/// The trade of a stock event: its symbol, quoted in US dollars, with the
/// venue id as the source id.
pub open spec fn stock_trade(e: TradeEvent) -> Result<TradeView, TradeError> {
    if e.symbol@.len() == 0 {
        Err(TradeError::NoSymbol)
    } else if e.exchange_id > i64::MAX as u64 {
        Err(TradeError::SourceOutOfRange)
    } else {
        Ok(
            TradeView {
                symbol: e.symbol@,
                currency: Currency::USD.code_spec(),
                price: e.price,
                timestamp: e.timestamp,
                exchange_id: e.exchange_id as i64,
            },
        )
    }
}

impl TradeEvent {
    /// Decodes an envelope: `Ok(None)` when it is not a stock trade,
    /// `Err(Malformed)` when it is one but a member is missing or mistyped.
    pub fn from_value(value: &Json) -> (r: Result<Option<Self>, TradeError>)
        ensures
            match r {
                Ok(None) => !is_stock_envelope(*value),
                Ok(Some(e)) => is_stock_envelope(*value) && stock_decodes_to(members_of(*value), e),
                Err(err) => is_stock_envelope(*value) && !stock_well_formed(members_of(*value))
                    && err == TradeError::Malformed,
            },
    {
        let m = match value {
            Json::Object(m) => m,
            _ => return Ok(None),
        };
        let event_type = match text_field_of(m, "ev") {
            Some(s) => s,
            None => return Ok(None),
        };
        if !text_eq(event_type.as_str(), "T") {
            return Ok(None);
        }
        let symbol = match text_field_of(m, "sym") {
            Some(s) => s,
            None => return Err(TradeError::Malformed),
        };
        let exchange_id = match u64_field_of(m, "x") {
            Some(x) => x,
            None => return Err(TradeError::Malformed),
        };
        let trade_id = match text_field_of(m, "i") {
            Some(s) => s,
            None => return Err(TradeError::Malformed),
        };
        let tape = match u64_field_of(m, "z") {
            Some(x) => x,
            None => return Err(TradeError::Malformed),
        };
        let price = match number_field_of(m, "p") {
            Some(n) => n,
            None => return Err(TradeError::Malformed),
        };
        let trade_size = match u64_field_of(m, "s") {
            Some(x) => x,
            None => return Err(TradeError::Malformed),
        };
        let trade_conditions = match i32_list_field_of(m, "c") {
            Some(c) => c,
            None => return Err(TradeError::Malformed),
        };
        let timestamp = match instant_field_of(m, "t") {
            Some(t) => t,
            None => return Err(TradeError::Malformed),
        };
        let sequence_number = match i64_field_of(m, "q") {
            Some(x) => x,
            None => return Err(TradeError::Malformed),
        };
        let trade_reporting_facility_id = match optional_i64_field_of(m, "trfi") {
            Some(x) => x,
            None => return Err(TradeError::Malformed),
        };
        let trf_timestamp = match optional_u64_field_of(m, "trft") {
            Some(x) => x,
            None => return Err(TradeError::Malformed),
        };
        Ok(
            Some(
                TradeEvent {
                    event_type,
                    symbol,
                    exchange_id,
                    trade_id,
                    tape,
                    price,
                    trade_size,
                    trade_conditions,
                    timestamp,
                    sequence_number,
                    trade_reporting_facility_id,
                    trf_timestamp,
                },
            ),
        )
    }
}

impl Trade for TradeEvent {
    open spec fn trade_spec(&self) -> Result<TradeView, TradeError> {
        stock_trade(*self)
    }

    fn get_trade(&self) -> (r: Result<TradeData, TradeError>) {
        if self.symbol.as_str().unicode_len() == 0 {
            return Err(TradeError::NoSymbol);
        }
        if self.exchange_id > i64::MAX as u64 {
            return Err(TradeError::SourceOutOfRange);
        }
        Ok(
            TradeData {
                symbol: self.symbol.clone(),
                currency: Currency::USD.code(),
                price: self.price,
                timestamp: self.timestamp,
                exchange_id: self.exchange_id as i64,
            },
        )
    }
}

} // verus!
