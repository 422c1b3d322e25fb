//! Crypto trade events: decoding from an envelope, and the trade they stand for.

use vstd::prelude::*;
use vstd::string::*;
use crate::json::{
    i32_list_field, i32_list_field_of, i64_field, i64_field_of, members_of, number_field,
    number_field_of, text_eq, text_field, text_field_of, Json, Number,
};
use crate::trade::{Trade, TradeData, TradeError, TradeView};
use crate::util::{instant_field, instant_field_of};
use crate::event::Feed;
use crate::session::{FeedSession, SessionState};

verus! {

/// The crypto feed.
pub struct Crypto {
    api_key: String,
}

impl Crypto {
    /// A session of the crypto feed, authenticating with `api_key` and
    /// subscribing to the comma-separated `pairs` channels.
    pub fn open_session(api_key: String, pairs: String) -> (r: FeedSession)
        ensures
            r.feed_spec() == Feed::Crypto,
            r.credential_spec() == api_key@,
            r.channels_spec() == pairs@,
            r.state_spec() == SessionState::Disconnected,
    {
        FeedSession::new(Feed::Crypto, api_key, pairs)
    }
}

/// The tag that marks a crypto trade envelope.
pub open spec fn crypto_tag() -> Seq<char> {
    "XT"@
}

/// A crypto trade as the feed reports it. Instants are UTC seconds since the epoch.
#[derive(Clone, Debug)]
pub struct CryptoTradeEvent {
    pub event_type: String,
    pub pair: String,
    pub price: Number,
    pub timestamp: i64,
    pub size: Number,
    pub conditions: Vec<i32>,
    pub trade_id: String,
    pub exchange_id: i64,
    pub received_timestamp: i64,
}

/// Whether the envelope's `ev` member is the crypto trade tag.
pub open spec fn is_crypto_envelope(j: Json) -> bool {
    text_field(members_of(j), "ev"@) == Some(crypto_tag())
}

/// Whether every member that a crypto trade needs is present with its type.
pub open spec fn crypto_well_formed(m: Seq<(String, Json)>) -> bool {
    &&& text_field(m, "ev"@) is Some
    &&& text_field(m, "pair"@) is Some
    &&& number_field(m, "p"@) is Some
    &&& instant_field(m, "t"@) is Some
    &&& number_field(m, "s"@) is Some
    &&& i32_list_field(m, "c"@) is Some
    &&& text_field(m, "i"@) is Some
    &&& i64_field(m, "x"@) is Some
    &&& instant_field(m, "r"@) is Some
}

/// Whether `e` holds exactly the members of `m`.
pub open spec fn crypto_decodes_to(m: Seq<(String, Json)>, e: CryptoTradeEvent) -> bool {
    &&& text_field(m, "ev"@) == Some(e.event_type@)
    &&& text_field(m, "pair"@) == Some(e.pair@)
    &&& number_field(m, "p"@) == Some(e.price)
    &&& instant_field(m, "t"@) == Some(e.timestamp)
    &&& number_field(m, "s"@) == Some(e.size)
    &&& i32_list_field(m, "c"@) == Some(e.conditions@)
    &&& text_field(m, "i"@) == Some(e.trade_id@)
    &&& i64_field(m, "x"@) == Some(e.exchange_id)
    &&& instant_field(m, "r"@) == Some(e.received_timestamp)
}

/// The end of the piece of `s` that starts at `from`: the index of the next
/// `-`, or the length of `s`.
pub open spec fn piece_end(s: Seq<char>, from: int) -> int
    decreases s.len() - from,
{
    if from < 0 || from >= s.len() {
        s.len() as int
    } else if s[from] == '-' {
        from
    } else {
        piece_end(s, from + 1)
    }
}

/// The trade of a pair `SYMBOL-CURRENCY`: the symbol is the text before the
/// first `-`, the currency the text between it and the next `-` (or the end).
/// Both must be non-empty.
pub open spec fn crypto_trade(e: CryptoTradeEvent) -> Result<TradeView, TradeError> {
    let p = e.pair@;
    let k = piece_end(p, 0);
    if k == 0 {
        Err(TradeError::NoSymbol)
    } else if k >= p.len() {
        Err(TradeError::NoCurrency)
    } else {
        let k2 = piece_end(p, k + 1);
        if k2 == k + 1 {
            Err(TradeError::NoCurrency)
        } else {
            Ok(
                TradeView {
                    symbol: p.subrange(0, k),
                    currency: p.subrange(k + 1, k2),
                    price: e.price,
                    timestamp: e.timestamp,
                    exchange_id: e.exchange_id,
                },
            )
        }
    }
}

/// Finds the end of the piece of `s` that starts at `from`.
pub fn find_piece_end(s: &str, from: usize) -> (r: usize)
    requires
        from <= s@.len(),
    ensures
        r == piece_end(s@, from as int),
        from <= r <= s@.len(),
{
    let n = s.unicode_len();
    let mut i = from;
    while i < n
        invariant
            n == s@.len(),
            from <= i <= n,
            piece_end(s@, from as int) == piece_end(s@, i as int),
        decreases n - i,
    {
        if s.get_char(i) == '-' {
            return i;
        }
        i = i + 1;
    }
    i
}

impl CryptoTradeEvent {
    /// Decodes an envelope: `Ok(None)` when it is not a crypto trade,
    /// `Err(Malformed)` when it is one but a member is missing or mistyped.
    pub fn from_value(value: &Json) -> (r: Result<Option<Self>, TradeError>)
        ensures
            match r {
                Ok(None) => !is_crypto_envelope(*value),
                Ok(Some(e)) => is_crypto_envelope(*value) && crypto_decodes_to(members_of(*value), e),
                Err(err) => is_crypto_envelope(*value) && !crypto_well_formed(members_of(*value))
                    && err == TradeError::Malformed,
            },
    {
        let m = match value {
            Json::Object(m) => m,
            _ => return Ok(None),
        };
        let event_type = match text_field_of(m, "ev") {
            Some(s) => s,
            None => return Ok(None),
        };
        if !text_eq(event_type.as_str(), "XT") {
            return Ok(None);
        }
        let pair = match text_field_of(m, "pair") {
            Some(s) => s,
            None => return Err(TradeError::Malformed),
        };
        let price = match number_field_of(m, "p") {
            Some(n) => n,
            None => return Err(TradeError::Malformed),
        };
        let timestamp = match instant_field_of(m, "t") {
            Some(t) => t,
            None => return Err(TradeError::Malformed),
        };
        let size = match number_field_of(m, "s") {
            Some(n) => n,
            None => return Err(TradeError::Malformed),
        };
        let conditions = match i32_list_field_of(m, "c") {
            Some(c) => c,
            None => return Err(TradeError::Malformed),
        };
        let trade_id = match text_field_of(m, "i") {
            Some(s) => s,
            None => return Err(TradeError::Malformed),
        };
        let exchange_id = match i64_field_of(m, "x") {
            Some(x) => x,
            None => return Err(TradeError::Malformed),
        };
        let received_timestamp = match instant_field_of(m, "r") {
            Some(t) => t,
            None => return Err(TradeError::Malformed),
        };
        Ok(
            Some(
                CryptoTradeEvent {
                    event_type,
                    pair,
                    price,
                    timestamp,
                    size,
                    conditions,
                    trade_id,
                    exchange_id,
                    received_timestamp,
                },
            ),
        )
    }
}

impl Trade for CryptoTradeEvent {
    open spec fn trade_spec(&self) -> Result<TradeView, TradeError> {
        crypto_trade(*self)
    }

    fn get_trade(&self) -> (r: Result<TradeData, TradeError>) {
        let p = self.pair.as_str();
        let n = p.unicode_len();
        let k = find_piece_end(p, 0);
        if k == 0 {
            return Err(TradeError::NoSymbol);
        }
        if k >= n {
            return Err(TradeError::NoCurrency);
        }
        let k2 = find_piece_end(p, k + 1);
        if k2 == k + 1 {
            return Err(TradeError::NoCurrency);
        }
        let symbol = String::from_str(p.substring_char(0, k));
        let currency = String::from_str(p.substring_char(k + 1, k2));
        Ok(
            TradeData {
                symbol,
                currency,
                price: self.price,
                timestamp: self.timestamp,
                exchange_id: self.exchange_id,
            },
        )
    }
}

} // verus!
