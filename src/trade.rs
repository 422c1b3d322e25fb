//! The normalised trade record and the capability that feed events share.

use vstd::prelude::*;
use crate::json::Number;

verus! {

/// One trade: instrument symbol and quote currency, price, UTC instant in
/// seconds since the epoch, and the id of the venue that reported it.
#[derive(Clone, Debug, PartialEq, Eq)]
pub struct TradeData {
    pub symbol: String,
    pub currency: String,
    pub price: Number,
    pub timestamp: i64,
    pub exchange_id: i64,
}

/// What a `TradeData` holds, with its strings as character sequences.
pub struct TradeView {
    pub symbol: Seq<char>,
    pub currency: Seq<char>,
    pub price: Number,
    pub timestamp: i64,
    pub exchange_id: i64,
}

impl View for TradeData {
    type V = TradeView;

    open spec fn view(&self) -> TradeView {
        TradeView {
            symbol: self.symbol@,
            currency: self.currency@,
            price: self.price,
            timestamp: self.timestamp,
            exchange_id: self.exchange_id,
        }
    }
}

/// Why a trade could not be decoded, derived or stored.
#[derive(Clone, Copy, Debug, PartialEq, Eq, Structural)]
pub enum TradeError {
    /// An envelope of the right kind lacks a field or holds one of the wrong type.
    Malformed,
    /// The instrument symbol is missing or empty.
    NoSymbol,
    /// The quote currency is missing or empty.
    NoCurrency,
    /// The venue id does not fit a signed 64-bit source id.
    SourceOutOfRange,
    /// The trade is for another instrument than the bucket's.
    Mismatch,
}

pub enum Currency {
    USD,
}

impl Currency {
    /// The currency's code.
    pub open spec fn code_spec(&self) -> Seq<char> {
        match self {
            Currency::USD => "USD"@,
        }
    }

    pub fn code(&self) -> (r: String)
        ensures
            r@ == self.code_spec(),
    {
        match self {
            Currency::USD => String::from_str("USD"),
        }
    }
}

/// The view of a derivation's outcome.
pub open spec fn outcome_view(r: Result<TradeData, TradeError>) -> Result<TradeView, TradeError> {
    match r {
        Ok(t) => Ok(t@),
        Err(e) => Err(e),
    }
}

/// What every feed event offers: the trade record it stands for, or why it has none.
pub trait Trade {
    spec fn trade_spec(&self) -> Result<TradeView, TradeError>;

    fn get_trade(&self) -> (r: Result<TradeData, TradeError>)
        ensures
            outcome_view(r) == self.trade_spec(),
    ;
}

} // verus!
